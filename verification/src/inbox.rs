//! The inbox: an inbound activity is authenticated, checked for ownership,
//! and routed to the handler of its type.

use crate::error::{Error, CREATED};
use crate::fetcher::Entity;
use crate::handler::like::{like_of, like_step, Like};
use crate::handler::undo::{undo_of, undoes, Undo};
use crate::model::{is_text, Activity, ObjectField};
use crate::protocol::{ActivityType, Kind, Outcome, Reply, Request};
use vstd::prelude::*;

verus! {

/// Whether activities of this type pass the ownership check whatever they
/// hold: an Announce or a Follow acts on what the sender does not own.
pub open spec fn exempt(kind: Seq<char>) -> bool {
    kind == "Announce"@ || kind == "Follow"@
}

/// An ownership check that waits for the activity's object to be resolved.
#[derive(Clone, Debug, PartialEq)]
pub struct Ownership {
    pub activity: Activity,
}

/// The ownership check on an activity: an exempt type passes; an inline
/// actor has to be the sender, an inline object attributed to the sender;
/// a bare URL is resolved first.
pub open spec fn ownership_of(activity: Activity) -> Outcome<Ownership, Activity> {
    if exempt(activity.kind@) {
        Outcome::Done(activity)
    } else {
        match activity.object {
            ObjectField::Actor(a) => if a.id@ == activity.actor@ {
                Outcome::Done(activity)
            } else {
                Outcome::Fail(Error::Unauthorized)
            },
            ObjectField::Object(o) => if o.attributed_to@ == activity.actor@ {
                Outcome::Done(activity)
            } else {
                Outcome::Fail(Error::Unauthorized)
            },
            ObjectField::Url(url) => Outcome::Ask(
                Ownership { activity },
                Request::Resolve(Kind::Any, url),
            ),
        }
    }
}

/// The ownership check on the resolved object: it has to belong to the
/// sender. A failed resolution is handed on as it is.
pub open spec fn ownership_step(pre: Ownership, reply: Reply) -> Outcome<Ownership, Activity> {
    match reply {
        Reply::Resolved(entity) => if entity@.owner() == pre.activity.actor@ {
            Outcome::Done(pre.activity)
        } else {
            Outcome::Fail(Error::Unauthorized)
        },
        _ => Outcome::Fail(reply.failure()),
    }
}

/// Checks that what the activity acts on belongs to its sender.
pub fn verify_ownership(activity: Activity) -> (post: Outcome<Ownership, Activity>)
    ensures
        post == ownership_of(activity),
        exempt(activity.kind@) ==> post == Outcome::<Ownership, Activity>::Done(activity),
        (activity.object matches ObjectField::Actor(a) && !exempt(activity.kind@) && a.id@
            != activity.actor@) ==> post == Outcome::<Ownership, Activity>::Fail(
            Error::Unauthorized,
        ),
{
    if is_text(&activity.kind, "Announce") || is_text(&activity.kind, "Follow") {
        return Outcome::Done(activity);
    }
    let decided: Result<bool, String> = match &activity.object {
        ObjectField::Actor(a) => Ok(a.id == activity.actor),
        ObjectField::Object(o) => Ok(o.attributed_to == activity.actor),
        ObjectField::Url(url) => Err(url.clone()),
    };
    match decided {
        Ok(true) => Outcome::Done(activity),
        Ok(false) => Outcome::Fail(Error::Unauthorized),
        Err(url) => Outcome::Ask(Ownership { activity }, Request::Resolve(Kind::Any, url)),
    }
}

impl Ownership {
    /// Takes the resolved object and decides.
    pub fn step(self, reply: Reply) -> (post: Outcome<Ownership, Activity>)
        ensures
            post == ownership_step(self, reply),
    {
        match reply {
            Reply::Resolved(entity) => {
                if entity.is_owned_by(self.activity.actor.as_str()) {
                    Outcome::Done(self.activity)
                } else {
                    Outcome::Fail(Error::Unauthorized)
                }
            },
            other => Outcome::Fail(other.failure()),
        }
    }
}

/// A signature check under way.
#[derive(Clone, Debug, PartialEq)]
pub enum Signature {
    /// The claimed sender is being resolved.
    Sender { activity: Activity, query: String },
    /// The signature is being verified against the sender's key.
    Verifying { activity: Activity },
}

/// The query that the signature covers: none where the raw query is empty.
pub open spec fn signed_query(query: String) -> Option<String> {
    if query@.len() == 0 {
        None
    } else {
        Some(query)
    }
}

/// The first step of the signature check: the claimed sender is resolved
/// to an actor.
pub open spec fn signature_of(activity: Activity, query: String) -> Outcome<Signature, Activity> {
    Outcome::Ask(
        Signature::Sender { activity, query },
        Request::Resolve(Kind::Actor, activity.actor),
    )
}

/// The transition of the signature check. It passes only on a signature
/// that was verified against the resolved sender's key; whatever else
/// comes back, the failure is `Unauthorized`.
pub open spec fn signature_step(pre: Signature, reply: Reply) -> Outcome<Signature, Activity> {
    match pre {
        Signature::Sender { activity, query } => match reply {
            Reply::Resolved(Entity::Actor(sender)) => Outcome::Ask(
                Signature::Verifying { activity },
                Request::VerifySignature {
                    public_key: sender.public_key_pem,
                    query: signed_query(query),
                },
            ),
            _ => Outcome::Fail(Error::Unauthorized),
        },
        Signature::Verifying { activity } => match reply {
            Reply::Verified(true) => Outcome::Done(activity),
            _ => Outcome::Fail(Error::Unauthorized),
        },
    }
}

/// Begins to check the request's signature against the key of the
/// activity's claimed sender. `query` is the request's raw query string.
pub fn verify_signature(activity: Activity, query: String) -> (post: Outcome<Signature, Activity>)
    ensures
        post == signature_of(activity, query),
{
    let sender = activity.actor.clone();
    Outcome::Ask(Signature::Sender { activity, query }, Request::Resolve(Kind::Actor, sender))
}

impl Signature {
    /// Takes the answer to the request that is out and decides what
    /// follows.
    pub fn step(self, reply: Reply) -> (post: Outcome<Signature, Activity>)
        ensures
            post == signature_step(self, reply),
            post is Fail ==> post == Outcome::<Signature, Activity>::Fail(Error::Unauthorized),
            post is Done ==> self is Verifying && reply == Reply::Verified(true),
    {
        match self {
            Signature::Sender { activity, query } => match reply {
                Reply::Resolved(Entity::Actor(sender)) => {
                    let query = if query.as_str().is_empty() {
                        None
                    } else {
                        Some(query)
                    };
                    Outcome::Ask(
                        Signature::Verifying { activity },
                        Request::VerifySignature { public_key: sender.public_key_pem, query },
                    )
                },
                _ => Outcome::Fail(Error::Unauthorized),
            },
            Signature::Verifying { activity } => match reply {
                Reply::Verified(true) => Outcome::Done(activity),
                _ => Outcome::Fail(Error::Unauthorized),
            },
        }
    }
}

/// The validation of a request under way: first the signature, then the
/// ownership.
#[derive(Clone, Debug, PartialEq)]
pub enum Validation {
    Signature(Signature),
    Ownership(Ownership),
}

/// What follows an outcome of the ownership check.
pub open spec fn after_ownership(o: Outcome<Ownership, Activity>) -> Outcome<
    Validation,
    Activity,
> {
    match o {
        Outcome::Ask(state, request) => Outcome::Ask(Validation::Ownership(state), request),
        Outcome::Done(activity) => Outcome::Done(activity),
        Outcome::Fail(e) => Outcome::Fail(e),
    }
}

/// What follows an outcome of the signature check: on a pass, the
/// ownership check.
pub open spec fn after_signature(o: Outcome<Signature, Activity>) -> Outcome<
    Validation,
    Activity,
> {
    match o {
        Outcome::Ask(state, request) => Outcome::Ask(Validation::Signature(state), request),
        Outcome::Done(activity) => after_ownership(ownership_of(activity)),
        Outcome::Fail(e) => Outcome::Fail(e),
    }
}

/// The transition of the validation.
pub open spec fn validation_step(pre: Validation, reply: Reply) -> Outcome<Validation, Activity> {
    match pre {
        Validation::Signature(s) => after_signature(signature_step(s, reply)),
        Validation::Ownership(o) => after_ownership(ownership_step(o, reply)),
    }
}

fn then_ownership(o: Outcome<Ownership, Activity>) -> (post: Outcome<Validation, Activity>)
    ensures
        post == after_ownership(o),
{
    match o {
        Outcome::Ask(state, request) => Outcome::Ask(Validation::Ownership(state), request),
        Outcome::Done(activity) => Outcome::Done(activity),
        Outcome::Fail(e) => Outcome::Fail(e),
    }
}

fn then_signature(o: Outcome<Signature, Activity>) -> (post: Outcome<Validation, Activity>)
    ensures
        post == after_signature(o),
{
    match o {
        Outcome::Ask(state, request) => Outcome::Ask(Validation::Signature(state), request),
        Outcome::Done(activity) => then_ownership(verify_ownership(activity)),
        Outcome::Fail(e) => Outcome::Fail(e),
    }
}

/// Begins to validate an inbound request that carries `activity`: its
/// signature is checked, then the ownership of what it acts on.
pub fn validate_request(activity: Activity, query: String) -> (post: Outcome<
    Validation,
    Activity,
>)
    ensures
        post == after_signature(signature_of(activity, query)),
{
    then_signature(verify_signature(activity, query))
}

impl Validation {
    /// Takes the answer to the request that is out and decides what
    /// follows.
    pub fn step(self, reply: Reply) -> (post: Outcome<Validation, Activity>)
        ensures
            post == validation_step(self, reply),
    {
        match self {
            Validation::Signature(s) => then_signature(s.step(reply)),
            Validation::Ownership(o) => then_ownership(o.step(reply)),
        }
    }
}

/// The handler that a type tag names, if any.
pub open spec fn recognized(kind: Seq<char>) -> Option<ActivityType> {
    if kind == "Accept"@ {
        Some(ActivityType::Accept)
    } else if kind == "Create"@ {
        Some(ActivityType::Create)
    } else if kind == "Delete"@ {
        Some(ActivityType::Delete)
    } else if kind == "Follow"@ {
        Some(ActivityType::Follow)
    } else if kind == "Like"@ {
        Some(ActivityType::Like)
    } else if kind == "Reject"@ {
        Some(ActivityType::Reject)
    } else if kind == "Undo"@ {
        Some(ActivityType::Undo)
    } else if kind == "Update"@ {
        Some(ActivityType::Update)
    } else {
        None
    }
}

/// Reads a type tag.
pub fn recognize(kind: &String) -> (r: Option<ActivityType>)
    ensures
        r == recognized(kind@),
{
    if is_text(kind, "Accept") {
        Some(ActivityType::Accept)
    } else if is_text(kind, "Create") {
        Some(ActivityType::Create)
    } else if is_text(kind, "Delete") {
        Some(ActivityType::Delete)
    } else if is_text(kind, "Follow") {
        Some(ActivityType::Follow)
    } else if is_text(kind, "Like") {
        Some(ActivityType::Like)
    } else if is_text(kind, "Reject") {
        Some(ActivityType::Reject)
    } else if is_text(kind, "Undo") {
        Some(ActivityType::Undo)
    } else if is_text(kind, "Update") {
        Some(ActivityType::Update)
    } else {
        None
    }
}

/// A dispatched activity under way in its handler.
#[derive(Debug, PartialEq)]
pub enum Handler {
    Like(Like),
    Undo(Undo),
    /// The handler runs outside.
    Delegated,
}

/// An outcome of the Like handler, as the dispatcher's.
pub open spec fn of_like(o: Outcome<Like, u16>) -> Outcome<Handler, u16> {
    match o {
        Outcome::Ask(state, request) => Outcome::Ask(Handler::Like(state), request),
        Outcome::Done(status) => Outcome::Done(status),
        Outcome::Fail(e) => Outcome::Fail(e),
    }
}

/// An outcome of the Undo handler, as the dispatcher's.
pub open spec fn of_undo(o: Outcome<Undo, u16>) -> Outcome<Handler, u16> {
    match o {
        Outcome::Ask(state, request) => Outcome::Ask(Handler::Undo(state), request),
        Outcome::Done(status) => Outcome::Done(status),
        Outcome::Fail(e) => Outcome::Fail(e),
    }
}

/// The dispatch of a validated activity: to exactly one handler, by its
/// type tag; a tag that names none fails with `UnknownActivity`, and nothing
/// is asked of the store.
pub open spec fn dispatch_of(activity: Activity, data: serde_json::Value) -> Outcome<
    Handler,
    u16,
> {
    match recognized(activity.kind@) {
        None => Outcome::Fail(Error::UnknownActivity),
        Some(ActivityType::Like) => of_like(like_of(activity, data)),
        Some(ActivityType::Undo) => of_undo(undo_of(activity)),
        Some(kind) => Outcome::Ask(Handler::Delegated, Request::Handle { kind, activity, data }),
    }
}

/// The transition of a dispatched activity: that of its handler.
pub open spec fn handles(pre: Handler, reply: Reply, post: Outcome<Handler, u16>) -> bool {
    match pre {
        Handler::Like(state) => post == of_like(like_step(state, reply)),
        Handler::Undo(state) => match post {
            Outcome::Ask(Handler::Undo(next), request) => undoes(
                state,
                reply,
                Outcome::Ask(next, request),
            ),
            Outcome::Ask(_, _) => false,
            Outcome::Done(status) => undoes(state, reply, Outcome::Done(status)),
            Outcome::Fail(e) => undoes(state, reply, Outcome::Fail(e)),
        },
        Handler::Delegated => match reply {
            Reply::Done => post == Outcome::<Handler, u16>::Done(CREATED),
            _ => post == Outcome::<Handler, u16>::Fail(reply.failure()),
        },
    }
}

fn from_like(o: Outcome<Like, u16>) -> (post: Outcome<Handler, u16>)
    ensures
        post == of_like(o),
{
    match o {
        Outcome::Ask(state, request) => Outcome::Ask(Handler::Like(state), request),
        Outcome::Done(status) => Outcome::Done(status),
        Outcome::Fail(e) => Outcome::Fail(e),
    }
}

fn from_undo(o: Outcome<Undo, u16>) -> (post: Outcome<Handler, u16>)
    ensures
        post == of_undo(o),
{
    match o {
        Outcome::Ask(state, request) => Outcome::Ask(Handler::Undo(state), request),
        Outcome::Done(status) => Outcome::Done(status),
        Outcome::Fail(e) => Outcome::Fail(e),
    }
}

/// Routes a validated activity, whose document is `data`, to the handler
/// of its type.
pub fn inbox(activity: Activity, data: serde_json::Value) -> (post: Outcome<Handler, u16>)
    ensures
        post == dispatch_of(activity, data),
        recognized(activity.kind@) is None ==> post == Outcome::<Handler, u16>::Fail(
            Error::UnknownActivity,
        ),
{
    match recognize(&activity.kind) {
        None => Outcome::Fail(Error::UnknownActivity),
        Some(ActivityType::Like) => from_like(crate::handler::like::handle(activity, data)),
        Some(ActivityType::Undo) => from_undo(crate::handler::undo::handle(activity)),
        Some(kind) => Outcome::Ask(Handler::Delegated, Request::Handle { kind, activity, data }),
    }
}

impl Handler {
    /// Takes the answer to the request that is out and hands it to the
    /// handler that is under way.
    pub fn step(self, reply: Reply) -> (post: Outcome<Handler, u16>)
        ensures
            handles(self, reply, post),
    {
        match self {
            Handler::Like(state) => from_like(state.step(reply)),
            Handler::Undo(state) => from_undo(state.step(reply)),
            Handler::Delegated => match reply {
                Reply::Done => Outcome::Done(CREATED),
                other => Outcome::Fail(other.failure()),
            },
        }
    }
}

} // verus!
