//! The one operation that the transport layer calls: process an inbound
//! activity. The request is validated, the activity dispatched, and every
//! resolution that either of them needs is run here, so that only the store,
//! the network and the signature check are left to the caller.

use crate::error::Error;
use crate::fetcher::{begins, resolves, Resolver, Step};
use crate::inbox::{
    after_signature, dispatch_of, handles, inbox, signature_of, validate_request,
    validation_step, Handler, Validation,
};
use crate::model::Activity;
use crate::protocol::{Outcome, Reply, Request};
use vstd::prelude::*;

verus! {

/// An inbound activity under way.
#[derive(Debug, PartialEq)]
pub enum Inbound {
    /// The request is being validated; `data` is the activity's document.
    Validating { state: Validation, data: serde_json::Value },
    /// The validation waits for the resolution `inner`.
    ValidatingResolve { state: Validation, data: serde_json::Value, inner: Resolver },
    /// The activity is with its handler.
    Handling { state: Handler },
    /// The handler waits for the resolution `inner`.
    HandlingResolve { state: Handler, inner: Resolver },
}

/// The answer that a finished resolution stands for.
pub open spec fn resolved(step: Step) -> Reply {
    match step {
        Step::Done(entity) => Reply::Resolved(entity),
        Step::Fail(e) => Reply::Failed(e),
        Step::Ask(_, _) => Reply::Missing,
    }
}

/// What follows an outcome of the handler: a resolution that it asks for
/// is begun here, any other request is handed out.
pub open spec fn handled(o: Outcome<Handler, u16>, post: Outcome<Inbound, u16>) -> bool {
    match o {
        Outcome::Ask(state, Request::Resolve(kind, url)) => post matches Outcome::Ask(
            Inbound::HandlingResolve { state: s, inner },
            request,
        ) && s == state && begins(kind, url@, Step::Ask(inner, request)),
        Outcome::Ask(state, request) => post == Outcome::<Inbound, u16>::Ask(Inbound::Handling { state }, request),
        Outcome::Done(status) => post == Outcome::<Inbound, u16>::Done(status),
        Outcome::Fail(e) => post == Outcome::<Inbound, u16>::Fail(e),
    }
}

/// What follows an outcome of the validation: a resolution that it asks
/// for is begun here, any other request is handed out, and an activity that
/// has passed is dispatched.
pub open spec fn validated(
    o: Outcome<Validation, Activity>,
    data: serde_json::Value,
    post: Outcome<Inbound, u16>,
) -> bool {
    match o {
        Outcome::Ask(state, Request::Resolve(kind, url)) => post matches Outcome::Ask(
            Inbound::ValidatingResolve { state: s, data: d, inner },
            request,
        ) && s == state && d == data && begins(kind, url@, Step::Ask(inner, request)),
        Outcome::Ask(state, request) => post == Outcome::<Inbound, u16>::Ask(
            Inbound::Validating { state, data },
            request,
        ),
        Outcome::Done(activity) => handled(dispatch_of(activity, data), post),
        Outcome::Fail(e) => post == Outcome::<Inbound, u16>::Fail(e),
    }
}

/// The transition of an inbound activity: while a resolution is under way
/// the answer goes to it, and its end goes to whoever asked for it.
pub open spec fn processes(pre: Inbound, reply: Reply, post: Outcome<Inbound, u16>) -> bool {
    match pre {
        Inbound::Validating { state, data } => validated(validation_step(state, reply), data, post),
        Inbound::ValidatingResolve { state, data, inner } => exists|step: Step|
            #[trigger] resolves(inner, reply, step) && match step {
                Step::Ask(next, request) => post == Outcome::<Inbound, u16>::Ask(
                    Inbound::ValidatingResolve { state, data, inner: next },
                    request,
                ),
                _ => validated(validation_step(state, resolved(step)), data, post),
            },
        Inbound::Handling { state } => exists|mid: Outcome<Handler, u16>|
            #[trigger] handles(state, reply, mid) && handled(mid, post),
        Inbound::HandlingResolve { state, inner } => exists|step: Step|
            #[trigger] resolves(inner, reply, step) && match step {
                Step::Ask(next, request) => post == Outcome::<Inbound, u16>::Ask(
                    Inbound::HandlingResolve { state, inner: next },
                    request,
                ),
                _ => exists|mid: Outcome<Handler, u16>|
                    #[trigger] handles(state, resolved(step), mid) && handled(mid, post),
            },
    }
}

fn after_handler(o: Outcome<Handler, u16>) -> (post: Outcome<Inbound, u16>)
    ensures
        handled(o, post),
{
    match o {
        Outcome::Ask(state, Request::Resolve(kind, url)) => match Resolver::start(
            kind,
            url.as_str(),
        ) {
            Step::Ask(inner, request) => Outcome::Ask(
                Inbound::HandlingResolve { state, inner },
                request,
            ),
            Step::Done(_) => Outcome::Fail(Error::Fetch),
            Step::Fail(e) => Outcome::Fail(e),
        },
        Outcome::Ask(state, request) => Outcome::Ask(Inbound::Handling { state }, request),
        Outcome::Done(status) => Outcome::Done(status),
        Outcome::Fail(e) => Outcome::Fail(e),
    }
}

fn after_validation(o: Outcome<Validation, Activity>, data: serde_json::Value) -> (post: Outcome<
    Inbound,
    u16,
>)
    ensures
        validated(o, data, post),
{
    match o {
        Outcome::Ask(state, Request::Resolve(kind, url)) => match Resolver::start(
            kind,
            url.as_str(),
        ) {
            Step::Ask(inner, request) => Outcome::Ask(
                Inbound::ValidatingResolve { state, data, inner },
                request,
            ),
            Step::Done(_) => Outcome::Fail(Error::Fetch),
            Step::Fail(e) => Outcome::Fail(e),
        },
        Outcome::Ask(state, request) => Outcome::Ask(Inbound::Validating { state, data }, request),
        Outcome::Done(activity) => after_handler(inbox(activity, data)),
        Outcome::Fail(e) => Outcome::Fail(e),
    }
}

/// Begins to process an inbound activity. `data` is its document, `query`
/// the raw query string of the request that brought it. The outcome is in
/// the end the status `201`, or the error of the first step that failed.
pub fn process(activity: Activity, data: serde_json::Value, query: String) -> (post: Outcome<
    Inbound,
    u16,
>)
    ensures
        validated(after_signature(signature_of(activity, query)), data, post),
        post is Ask,
{
    after_validation(validate_request(activity, query), data)
}

impl Inbound {
    /// Takes the answer to the request that is out and decides what
    /// follows.
    pub fn step(self, reply: Reply) -> (post: Outcome<Inbound, u16>)
        ensures
            processes(self, reply, post),
    {
        match self {
            Inbound::Validating { state, data } => after_validation(state.step(reply), data),
            Inbound::ValidatingResolve { state, data, inner } => {
                let step = inner.step(reply);
                match step {
                    Step::Ask(next, request) => Outcome::Ask(
                        Inbound::ValidatingResolve { state, data, inner: next },
                        request,
                    ),
                    Step::Done(entity) => after_validation(
                        state.step(Reply::Resolved(entity)),
                        data,
                    ),
                    Step::Fail(e) => after_validation(state.step(Reply::Failed(e)), data),
                }
            },
            Inbound::Handling { state } => after_handler(state.step(reply)),
            Inbound::HandlingResolve { state, inner } => {
                let step = inner.step(reply);
                match step {
                    Step::Ask(next, request) => Outcome::Ask(
                        Inbound::HandlingResolve { state, inner: next },
                        request,
                    ),
                    Step::Done(entity) => after_handler(state.step(Reply::Resolved(entity))),
                    Step::Fail(e) => after_handler(state.step(Reply::Failed(e))),
                }
            },
        }
    }
}

} // verus!
