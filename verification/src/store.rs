//! A model of the store, and the invariant that the pipeline keeps of it:
//! no stored activity or object is without the row of the actor that it
//! belongs to.
//!
//! The store itself is outside. What is proved here holds of every store
//! that answers truthfully, in the sense of [`serves`], while one inbound
//! request is processed.

use crate::fetcher::{begins, resolves, Resolver, Step};
use crate::handler::like::{like_of, like_step, Like};
use crate::inbox::{after_signature, signature_of, Handler};
use crate::model::Activity;
use crate::pipeline::{processes, validated, Inbound};
use crate::protocol::{Outcome, Reply, Request};
use vstd::prelude::*;

verus! {

/// What the invariant needs to know of a store: the keys of the actor rows,
/// and for each stored activity or object the key of the row that owns it.
pub struct Store {
    pub actors: Set<u128>,
    pub owners: Seq<u128>,
}

impl Store {
    /// No record dangles: each is owned by an actor row that is there.
    pub open spec fn referential(self) -> bool {
        forall|i: int| 0 <= i < self.owners.len() ==> self.actors.contains(#[trigger] self.owners[i])
    }
}

/// A store that answers `request` with `reply` truthfully, and is `after`
/// afterwards: it hands out only actor rows that it holds, an insert that it
/// confirms has added just that row or record, a delete removes records
/// only, and a resolution or a handler that runs outside leaves it
/// referential and removes no actor.
pub open spec fn serves(store: Store, request: Request, reply: Reply, after: Store) -> bool {
    match request {
        Request::ActorByUrl(_) => after == store && (reply matches Reply::ActorRow { id, .. }
            ==> store.actors.contains(id)),
        Request::InsertActor { .. } => match reply {
            Reply::ActorRow { id, .. } => after == (Store {
                actors: store.actors.insert(id),
                owners: store.owners,
            }),
            _ => after == store,
        },
        Request::InsertRecord { owner, .. } => match reply {
            Reply::Done => after == (Store {
                actors: store.actors,
                owners: store.owners.push(owner),
            }),
            _ => after == store,
        },
        Request::DeleteActivity(_) => after.actors == store.actors && forall|i: int|
            0 <= i < after.owners.len() ==> store.owners.contains(#[trigger] after.owners[i]),
        Request::Resolve(_, _) => store.actors.subset_of(after.actors) && (store.referential()
            ==> after.referential()),
        Request::Handle { .. } => store.actors.subset_of(after.actors) && (store.referential()
            ==> after.referential()),
        _ => after == store,
    }
}

/// The request that is out in each state of a resolution.
pub open spec fn awaits(state: Resolver, request: Request) -> bool {
    match state {
        Resolver::CachedActor { .. } => request is ActorByUrl,
        Resolver::CachedRecord { .. } => request is RecordByUrl,
        Resolver::Remote { .. } => request is Get,
        Resolver::StoringActor { .. } => request is InsertActor,
        Resolver::OwnerCached { .. } => request is ActorByUrl,
        Resolver::OwnerRemote { .. } => request is Get,
        Resolver::OwnerStoring { .. } => request is InsertActor,
        Resolver::OwnerRow { .. } => request is ActorByUrl,
        Resolver::Storing { .. } => request is InsertRecord,
    }
}

/// What holds between the steps of a resolution: the store is referential,
/// the request fits the state, and a record that is about to be inserted
/// is owned by a row that the store holds.
pub open spec fn sound(store: Store, state: Resolver, request: Request) -> bool {
    &&& store.referential()
    &&& awaits(state, request)
    &&& (request matches Request::InsertRecord { owner, .. } ==> store.actors.contains(owner))
}

/// A resolution begins sound on a referential store.
pub proof fn resolution_begins_sound(store: Store, kind: crate::protocol::Kind, url: Seq<char>, post: Step)
    requires
        store.referential(),
        begins(kind, url, post),
    ensures
        post matches Step::Ask(state, request) && sound(store, state, request),
{
}

/// Every step of a resolution against a truthful store keeps it sound: the
/// store stays referential, so that an activity or object never becomes
/// visible before the actor that it belongs to.
pub proof fn resolution_stays_sound(
    store: Store,
    pre: Resolver,
    asked: Request,
    reply: Reply,
    after: Store,
    post: Step,
)
    requires
        sound(store, pre, asked),
        serves(store, asked, reply, after),
        resolves(pre, reply, post),
    ensures
        after.referential(),
        store.actors.subset_of(after.actors),
        post matches Step::Ask(next, request) ==> sound(after, next, request),
{
    assert(after.referential()) by {
        if asked is InsertRecord && reply is Done {
            assert forall|i: int| 0 <= i < after.owners.len() implies after.actors.contains(
                #[trigger] after.owners[i],
            ) by {
                if i < store.owners.len() {
                    assert(after.owners[i] == store.owners[i]);
                }
            }
        }
    }
}

/// The request that is out in each state of a Like.
pub open spec fn like_awaits(state: Like, request: Request) -> bool {
    match state {
        Like::Target { .. } => request is Resolve,
        Like::Sender { .. } => request is Resolve,
        Like::Owner { .. } => request is ActorByUrl,
        Like::Storing => request is InsertRecord,
    }
}

/// What holds between the steps of a Like.
pub open spec fn like_sound(store: Store, state: Like, request: Request) -> bool {
    &&& store.referential()
    &&& like_awaits(state, request)
    &&& (request matches Request::InsertRecord { owner, .. } ==> store.actors.contains(owner))
}

/// A Like begins sound on a referential store.
pub proof fn like_begins_sound(store: Store, activity: Activity, data: serde_json::Value)
    requires
        store.referential(),
    ensures
        like_of(activity, data) matches Outcome::Ask(state, request) ==> like_sound(
            store,
            state,
            request,
        ),
{
}

/// Every step of a Like against a truthful store keeps it sound: the Like
/// is stored for an actor row that the store holds.
pub proof fn like_stays_sound(store: Store, pre: Like, asked: Request, reply: Reply, after: Store)
    requires
        like_sound(store, pre, asked),
        serves(store, asked, reply, after),
    ensures
        after.referential(),
        like_step(pre, reply) matches Outcome::Ask(next, request) ==> like_sound(
            after,
            next,
            request,
        ),
{
    assert(after.referential()) by {
        if asked is InsertRecord && reply is Done {
            assert forall|i: int| 0 <= i < after.owners.len() implies after.actors.contains(
                #[trigger] after.owners[i],
            ) by {
                if i < store.owners.len() {
                    assert(after.owners[i] == store.owners[i]);
                }
            }
        }
    }
}

/// A delete leaves a referential store referential, whatever it removes.
pub proof fn delete_keeps_referential(store: Store, url: String, reply: Reply, after: Store)
    requires
        store.referential(),
        serves(store, Request::DeleteActivity(url), reply, after),
    ensures
        after.referential(),
{
    assert forall|i: int| 0 <= i < after.owners.len() implies after.actors.contains(
        #[trigger] after.owners[i],
    ) by {
        let owner = after.owners[i];
        assert(store.owners.contains(owner));
        let j = choose|j: int| 0 <= j < store.owners.len() && store.owners[j] == owner;
        assert(store.actors.contains(store.owners[j]));
    }
}

/// The request that is out in each state of an inbound activity.
pub open spec fn inbound_awaits(state: Inbound, request: Request) -> bool {
    match state {
        Inbound::Validating { .. } => !(request is InsertRecord),
        Inbound::ValidatingResolve { inner, .. } => awaits(inner, request),
        Inbound::Handling { state } => match state {
            Handler::Like(like) => like_awaits(like, request) && !(request is Resolve),
            _ => !(request is InsertRecord),
        },
        Inbound::HandlingResolve { inner, .. } => awaits(inner, request),
    }
}

/// What holds between the steps of an inbound activity.
pub open spec fn inbound_sound(store: Store, state: Inbound, request: Request) -> bool {
    &&& store.referential()
    &&& inbound_awaits(state, request)
    &&& (request matches Request::InsertRecord { owner, .. } ==> store.actors.contains(owner))
}

/// An inbound activity begins sound on a referential store.
pub proof fn inbound_begins_sound(
    store: Store,
    activity: Activity,
    data: serde_json::Value,
    query: String,
    post: Outcome<Inbound, u16>,
)
    requires
        store.referential(),
        validated(after_signature(signature_of(activity, query)), data, post),
    ensures
        post matches Outcome::Ask(state, request) && inbound_sound(store, state, request),
{
}

/// Every step of an inbound activity against a truthful store keeps it
/// sound: from the request's arrival to its end, whatever the remote
/// servers send, no activity or object is stored without the row of the
/// actor that it belongs to.
pub proof fn inbound_stays_sound(
    store: Store,
    pre: Inbound,
    asked: Request,
    reply: Reply,
    after: Store,
    post: Outcome<Inbound, u16>,
)
    requires
        inbound_sound(store, pre, asked),
        serves(store, asked, reply, after),
        processes(pre, reply, post),
    ensures
        after.referential(),
        post matches Outcome::Ask(next, request) ==> inbound_sound(after, next, request),
{
    assert(after.referential()) by {
        match asked {
            Request::InsertRecord { .. } => {
                if reply is Done {
                    assert forall|i: int| 0 <= i < after.owners.len() implies after.actors.contains(
                        #[trigger] after.owners[i],
                    ) by {
                        if i < store.owners.len() {
                            assert(after.owners[i] == store.owners[i]);
                        }
                    }
                }
            },
            Request::DeleteActivity(url) => {
                delete_keeps_referential(store, url, reply, after);
            },
            _ => {},
        }
    }
    match pre {
        Inbound::ValidatingResolve { state, data, inner } => {
            let step = choose|step: Step| #[trigger]
                resolves(inner, reply, step) && match step {
                    Step::Ask(next, request) => post == Outcome::<Inbound, u16>::Ask(
                        Inbound::ValidatingResolve { state, data, inner: next },
                        request,
                    ),
                    _ => validated(
                        crate::inbox::validation_step(state, crate::pipeline::resolved(step)),
                        data,
                        post,
                    ),
                };
            resolution_stays_sound(store, inner, asked, reply, after, step);
        },
        Inbound::HandlingResolve { state, inner } => {
            let step = choose|step: Step| #[trigger]
                resolves(inner, reply, step) && match step {
                    Step::Ask(next, request) => post == Outcome::<Inbound, u16>::Ask(
                        Inbound::HandlingResolve { state, inner: next },
                        request,
                    ),
                    _ => exists|mid: Outcome<Handler, u16>| #[trigger]
                        crate::inbox::handles(state, crate::pipeline::resolved(step), mid)
                            && crate::pipeline::handled(mid, post),
                };
            resolution_stays_sound(store, inner, asked, reply, after, step);
        },
        _ => {},
    }
}

} // verus!
