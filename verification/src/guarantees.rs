//! What holds of the resolver and the dispatcher over every run.

use crate::fetcher::{entity_of, resolves, stored_as, Resolver, Step};
use crate::inbox::recognized;
use crate::error::Error;
use crate::model::Activity;
use crate::pipeline::{processes, validated, Inbound};
use crate::protocol::{Kind, Outcome, Reply, Request};
use vstd::prelude::*;

verus! {

/// The first step of a resolution leaves it in a well-formed state.
pub proof fn start_is_well_formed(kind: Kind, url: Seq<char>, post: Step)
    requires
        crate::fetcher::begins(kind, url, post),
    ensures
        post matches Step::Ask(next, request) && next.wf() && !(request is Get),
{
}

/// Every step of a resolution keeps it well-formed.
pub proof fn step_keeps_well_formed(pre: Resolver, reply: Reply, post: Step)
    requires
        pre.wf(),
        resolves(pre, reply, post),
    ensures
        post matches Step::Ask(next, _) ==> next.wf(),
{
}

/// Every resolution ends: each step leaves fewer requests to come, and
/// there are never more than eight. Whatever a remote server sends, the
/// actor that an entity belongs to is resolved once and leads no further.
pub proof fn resolution_ends(pre: Resolver, reply: Reply, post: Step)
    requires
        resolves(pre, reply, post),
    ensures
        pre.remaining() <= 8,
        post matches Step::Ask(next, _) ==> next.remaining() < pre.remaining(),
{
}

/// A resolution that the store answers ends there: nothing is fetched and
/// nothing is written, and the entity is what the stored document reads as.
pub proof fn stored_entity_is_not_fetched(pre: Resolver, reply: Reply, post: Step)
    requires
        resolves(pre, reply, post),
        (pre is CachedRecord && reply is Record) || (pre is CachedActor && reply is ActorRow),
    ensures
        !(post is Ask),
        pre matches Resolver::CachedRecord { kind, .. } ==> (reply matches Reply::Record(data)
            ==> (post matches Step::Done(e) ==> stored_as(kind, data) == Some(e@))),
        pre is CachedActor ==> (reply matches Reply::ActorRow { data, .. } ==> (post matches Step::Done(
            e,
        ) ==> stored_as(Kind::Actor, data) == Some(e@))),
{
}

/// A document that was fetched and taken for an entity of the kind asked
/// for reads as that same entity when it comes back from the store.
pub proof fn stored_reads_as_fetched(kind: Kind, data: serde_json::Value)
    requires
        entity_of(data) is Some,
        kind.admits(entity_of(data).unwrap()),
    ensures
        stored_as(kind, data) == entity_of(data),
{
}

/// The second resolution of a URL whose document was fetched and stored by
/// the first ends on the store's answer with the entity that the first
/// ended with, and asks for nothing.
pub proof fn second_resolution_is_answered_from_store(
    kind: Kind,
    url: String,
    data: serde_json::Value,
    post: Step,
)
    requires
        entity_of(data) is Some,
        kind.admits(entity_of(data).unwrap()),
        kind == Kind::Activity || kind == Kind::Object,
        resolves(Resolver::CachedRecord { kind, url }, Reply::Record(data), post),
    ensures
        post matches Step::Done(e) && Some(e@) == entity_of(data),
{
    stored_reads_as_fetched(kind, data);
}

/// Two resolutions of a URL in sequence: the first fetches the document
/// `data`, hands it to the store and ends; the second, to which the store
/// hands that document back, ends at once with the same entity.
pub proof fn resolving_again_returns_the_same(
    kind: Kind,
    url: String,
    pre: Resolver,
    reply: Reply,
    storing: Resolver,
    owner: u128,
    id: String,
    data: serde_json::Value,
    first: Step,
    second: Step,
)
    requires
        kind == Kind::Activity || kind == Kind::Object,
        pre.wf(),
        resolves(pre, reply, Step::Ask(storing, Request::InsertRecord { owner, id, data })),
        resolves(storing, Reply::Done, first),
        entity_of(data) is Some ==> kind.admits(entity_of(data).unwrap()),
        resolves(Resolver::CachedRecord { kind, url }, Reply::Record(data), second),
    ensures
        first matches Step::Done(a) && second matches Step::Done(b) && a@ == b@ && Some(a@)
            == entity_of(data),
{
    owner_is_stored_before_record(
        pre,
        reply,
        Step::Ask(storing, Request::InsertRecord { owner, id, data }),
    );
    stored_reads_as_fetched(kind, data);
}

/// The same of an actor: where the store hands back the document that a
/// first resolution fetched and stored, the second ends with the actor that
/// the first ended with, and asks for nothing.
pub proof fn second_actor_resolution_is_answered_from_store(
    url: String,
    id: u128,
    data: serde_json::Value,
    post: Step,
)
    requires
        entity_of(data) is Some,
        Kind::Actor.admits(entity_of(data).unwrap()),
        resolves(
            Resolver::CachedActor { kind: Kind::Actor, url },
            Reply::ActorRow { id, data },
            post,
        ),
    ensures
        post matches Step::Done(e) && Some(e@) == entity_of(data),
{
    stored_reads_as_fetched(Kind::Actor, data);
}

/// An activity or object is handed to the store only in answer to the
/// store's handing out the row of an actor, and is stored for that row; the
/// document stored is the one that was fetched, under the URL that it
/// gives itself.
pub proof fn owner_is_stored_before_record(pre: Resolver, reply: Reply, post: Step)
    requires
        pre.wf(),
        resolves(pre, reply, post),
        post matches Step::Ask(_, Request::InsertRecord { .. }),
    ensures
        pre is OwnerRow,
        reply is ActorRow,
        post matches Step::Ask(Resolver::Storing { entity }, Request::InsertRecord { owner, id, data })
            && owner == reply->ActorRow_id && entity_of(data) == Some(entity@) && id@
            == entity@.id(),
{
}

/// The row of the owning actor is asked for only once the store has
/// answered for that actor: with the actor found, or with the fetched actor
/// stored.
pub proof fn owner_row_follows_store(pre: Resolver, reply: Reply, post: Step)
    requires
        resolves(pre, reply, post),
        post matches Step::Ask(Resolver::OwnerRow { .. }, _),
    ensures
        pre is OwnerCached || pre is OwnerStoring,
        reply is ActorRow,
        post matches Step::Ask(_, Request::ActorByUrl(_)),
{
}

/// The origin is asked only after the store has been asked and has not
/// answered with the entity.
pub proof fn fetch_follows_miss(pre: Resolver, reply: Reply, post: Step)
    requires
        resolves(pre, reply, post),
        post matches Step::Ask(_, Request::Get(_)),
    ensures
        pre is CachedActor || pre is CachedRecord || pre is OwnerCached,
        pre is CachedActor || pre is OwnerCached ==> !(reply is ActorRow),
        pre is CachedRecord ==> !(reply is Record),
{
}

/// The resolver asks for the store and the network only: never for
/// another resolution, a signature check, a delete or a handler.
pub proof fn resolver_asks_store_and_network(pre: Resolver, reply: Reply, post: Step)
    requires
        resolves(pre, reply, post),
    ensures
        post matches Step::Ask(_, request) ==> (request is ActorByUrl || request is RecordByUrl
            || request is Get || request is InsertActor || request is InsertRecord),
{
}

/// No request that an inbound activity hands out is a resolution: those
/// are run within.
pub proof fn resolutions_run_within(pre: Inbound, reply: Reply, post: Outcome<Inbound, u16>)
    requires
        processes(pre, reply, post),
    ensures
        post matches Outcome::Ask(_, request) ==> !(request is Resolve),
{
}

/// A validated activity whose type tag names no handler fails with
/// `UnknownActivity`, and nothing is asked on its behalf.
pub proof fn unknown_activity_asks_nothing(
    activity: Activity,
    data: serde_json::Value,
    post: Outcome<Inbound, u16>,
)
    requires
        recognized(activity.kind@) is None,
        validated(Outcome::Done(activity), data, post),
    ensures
        post == Outcome::<Inbound, u16>::Fail(Error::UnknownActivity),
{
}

/// A type tag outside the eight that have a handler names none.
pub proof fn unknown_tag_names_no_handler(kind: Seq<char>)
    requires
        kind != "Accept"@,
        kind != "Create"@,
        kind != "Delete"@,
        kind != "Follow"@,
        kind != "Like"@,
        kind != "Reject"@,
        kind != "Undo"@,
        kind != "Update"@,
    ensures
        recognized(kind) is None,
{
}

/// `Announce` passes the ownership check unseen, but has no handler.
pub proof fn announce_has_no_handler()
    ensures
        crate::inbox::exempt("Announce"@),
        recognized("Announce"@) is None,
{
    reveal_strlit("Announce");
    reveal_strlit("Accept");
    reveal_strlit("Create");
    reveal_strlit("Delete");
    reveal_strlit("Follow");
    reveal_strlit("Like");
    reveal_strlit("Reject");
    reveal_strlit("Undo");
    reveal_strlit("Update");
    assert("Announce"@.len() == 8);
    assert("Accept"@.len() == 6);
    assert("Create"@.len() == 6);
    assert("Delete"@.len() == 6);
    assert("Follow"@.len() == 6);
    assert("Like"@.len() == 4);
    assert("Reject"@.len() == 6);
    assert("Undo"@.len() == 4);
    assert("Update"@.len() == 6);
}

} // verus!
