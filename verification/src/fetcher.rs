//! The entity resolver: from a URL to the local copy of what it names.
//!
//! A URL that the store knows is answered from the store. One that it does
//! not know is fetched from its origin, classified, and stored; an activity
//! or object only after the actor that it belongs to has been resolved and
//! found in the store.

use crate::error::Error;
use crate::json::{json_member, member, text_at};
use crate::model::{
    activity_of, actor_of, is_text, object_of, parse_activity, parse_actor, parse_object,
    Activity, ActivityView, Actor, ActorView, Object, ObjectView,
};
use crate::protocol::{Kind, Reply, Request};
use vstd::prelude::*;

verus! {

/// What a URL can resolve to.
#[derive(Clone, Debug, PartialEq)]
pub enum Entity {
    Activity(Activity),
    Actor(Actor),
    Object(Object),
}

pub enum EntityView {
    Activity(ActivityView),
    Actor(ActorView),
    Object(ObjectView),
}

impl View for Entity {
    type V = EntityView;

    open spec fn view(&self) -> EntityView {
        match self {
            Entity::Activity(a) => EntityView::Activity(a@),
            Entity::Actor(a) => EntityView::Actor(a@),
            Entity::Object(o) => EntityView::Object(o@),
        }
    }
}

impl EntityView {
    /// The URL of the actor that the entity belongs to: an actor belongs
    /// to itself, an activity to its sender, an object to the actor that it
    /// is attributed to.
    pub open spec fn owner(self) -> Seq<char> {
        match self {
            EntityView::Activity(a) => a.actor,
            EntityView::Actor(a) => a.id,
            EntityView::Object(o) => o.attributed_to,
        }
    }

    /// The entity's own URL.
    pub open spec fn id(self) -> Seq<char> {
        match self {
            EntityView::Activity(a) => a.id,
            EntityView::Actor(a) => a.id,
            EntityView::Object(o) => o.id,
        }
    }
}

impl Kind {
    /// Whether an entity is of this kind.
    pub open spec fn admits(self, e: EntityView) -> bool {
        match self {
            Kind::Activity => e is Activity,
            Kind::Actor => e is Actor,
            Kind::Object => e is Object,
            Kind::Any => true,
        }
    }
}

impl Entity {
    pub fn into_activity(self) -> (r: Option<Activity>)
        ensures
            r == match self {
                Entity::Activity(a) => Some(a),
                _ => None,
            },
    {
        match self {
            Entity::Activity(activity) => Some(activity),
            _ => None,
        }
    }

    pub fn into_actor(self) -> (r: Option<Actor>)
        ensures
            r == match self {
                Entity::Actor(a) => Some(a),
                _ => None,
            },
    {
        match self {
            Entity::Actor(actor) => Some(actor),
            _ => None,
        }
    }

    pub fn into_object(self) -> (r: Option<Object>)
        ensures
            r == match self {
                Entity::Object(o) => Some(o),
                _ => None,
            },
    {
        match self {
            Entity::Object(object) => Some(object),
            _ => None,
        }
    }

    /// The URL of the actor that the entity belongs to.
    pub fn owner(&self) -> (r: &String)
        ensures
            r@ == self@.owner(),
    {
        match self {
            Entity::Activity(a) => &a.actor,
            Entity::Actor(a) => &a.id,
            Entity::Object(o) => &o.attributed_to,
        }
    }

    /// The entity's own URL.
    pub fn id(&self) -> (r: &String)
        ensures
            r@ == self@.id(),
    {
        match self {
            Entity::Activity(a) => &a.id,
            Entity::Actor(a) => &a.id,
            Entity::Object(o) => &o.id,
        }
    }

    /// Whether the entity belongs to the actor with this URL.
    pub fn is_owned_by(&self, actor: &str) -> (r: bool)
        ensures
            r == (self@.owner() == actor@),
    {
        is_text(self.owner(), actor)
    }

    /// Whether the entity is of the kind asked for.
    pub fn is_of(&self, kind: Kind) -> (r: bool)
        ensures
            r == kind.admits(self@),
    {
        match kind {
            Kind::Any => true,
            Kind::Activity => match self {
                Entity::Activity(_) => true,
                _ => false,
            },
            Kind::Actor => match self {
                Entity::Actor(_) => true,
                _ => false,
            },
            Kind::Object => match self {
                Entity::Object(_) => true,
                _ => false,
            },
        }
    }
}

/// What a fetched document is taken for: an actor where its type tag is
/// `Person`; otherwise an activity where it has an `object` member;
/// otherwise an object. `None` where it cannot be read as what it is taken
/// for.
pub open spec fn entity_of(doc: serde_json::Value) -> Option<EntityView> {
    if text_at(doc, "type"@) == Some("Person"@) {
        match actor_of(doc) {
            Some(a) => Some(EntityView::Actor(a)),
            None => None,
        }
    } else if json_member(doc, "object"@) is Some {
        match activity_of(doc) {
            Some(a) => Some(EntityView::Activity(a)),
            None => None,
        }
    } else {
        match object_of(doc) {
            Some(o) => Some(EntityView::Object(o)),
            None => None,
        }
    }
}

/// Classifies a fetched document. Fails with `Fetch` on content that cannot
/// be interpreted.
pub fn classify(doc: &serde_json::Value) -> (r: Result<Entity, Error>)
    ensures
        match r {
            Ok(e) => entity_of(*doc) == Some(e@),
            Err(err) => entity_of(*doc) is None && err == Error::Fetch,
        },
{
    let person = match crate::json::string_member(doc, "type") {
        Some(tag) => is_text(&tag, "Person"),
        None => false,
    };
    if person {
        match parse_actor(doc) {
            Some(a) => Ok(Entity::Actor(a)),
            None => Err(Error::Fetch),
        }
    } else if member(doc, "object").is_some() {
        match parse_activity(doc) {
            Some(a) => Ok(Entity::Activity(a)),
            None => Err(Error::Fetch),
        }
    } else {
        match parse_object(doc) {
            Some(o) => Ok(Entity::Object(o)),
            None => Err(Error::Fetch),
        }
    }
}

/// What a stored document is read as when an entity of `kind` was asked
/// for: the kind itself, or, for `Any`, what the document is taken for.
pub open spec fn stored_as(kind: Kind, doc: serde_json::Value) -> Option<EntityView> {
    match kind {
        Kind::Activity => match activity_of(doc) {
            Some(a) => Some(EntityView::Activity(a)),
            None => None,
        },
        Kind::Actor => match actor_of(doc) {
            Some(a) => Some(EntityView::Actor(a)),
            None => None,
        },
        Kind::Object => match object_of(doc) {
            Some(o) => Some(EntityView::Object(o)),
            None => None,
        },
        Kind::Any => entity_of(doc),
    }
}

/// Reads a stored document as an entity of `kind`.
pub fn read_stored(kind: Kind, doc: &serde_json::Value) -> (r: Result<Entity, Error>)
    ensures
        match r {
            Ok(e) => stored_as(kind, *doc) == Some(e@),
            Err(err) => stored_as(kind, *doc) is None && err == Error::Fetch,
        },
{
    match kind {
        Kind::Activity => match parse_activity(doc) {
            Some(a) => Ok(Entity::Activity(a)),
            None => Err(Error::Fetch),
        },
        Kind::Actor => match parse_actor(doc) {
            Some(a) => Ok(Entity::Actor(a)),
            None => Err(Error::Fetch),
        },
        Kind::Object => match parse_object(doc) {
            Some(o) => Ok(Entity::Object(o)),
            None => Err(Error::Fetch),
        },
        Kind::Any => classify(doc),
    }
}

/// A resolution under way: the request that is out, and what is kept for
/// its answer.
#[derive(Debug, PartialEq)]
pub enum Resolver {
    /// The store was asked for the actor at `url`.
    CachedActor { kind: Kind, url: String },
    /// The store was asked for the activity or object at `url`.
    CachedRecord { kind: Kind, url: String },
    /// The origin was asked for the entity.
    Remote { kind: Kind },
    /// The store was asked to insert the fetched actor.
    StoringActor { actor: Actor },
    /// `entity` was fetched with the document `data`; the store was asked
    /// for the actor that it belongs to.
    OwnerCached { entity: Entity, data: serde_json::Value },
    /// The origin was asked for the owning actor.
    OwnerRemote { entity: Entity, data: serde_json::Value },
    /// The store was asked to insert the owning actor, whose URL is `owner`.
    OwnerStoring { entity: Entity, data: serde_json::Value, owner: String },
    /// The store was asked for the row of the owning actor.
    OwnerRow { entity: Entity, data: serde_json::Value },
    /// The store was asked to insert the fetched activity or object.
    Storing { entity: Entity },
}

/// Where a resolution stands after an answer.
#[derive(Debug, PartialEq)]
pub enum Step {
    /// It goes on: carry out the request, and hand the answer to
    /// [`Resolver::step`].
    Ask(Resolver, Request),
    /// It ended with this entity.
    Done(Entity),
    /// It failed. Nothing of it is handed out.
    Fail(Error),
}

/// The first step of resolving `url` to an entity of `kind`: an actor is
/// looked for among the stored actors, an activity or object among the
/// stored records, and a URL of unknown kind among the actors first.
pub open spec fn begins(kind: Kind, url: Seq<char>, post: Step) -> bool {
    match kind {
        Kind::Actor | Kind::Any => post matches Step::Ask(
            Resolver::CachedActor { kind: k, url: kept },
            Request::ActorByUrl(asked),
        ) && k == kind && kept@ == url && asked@ == url,
        _ => post matches Step::Ask(
            Resolver::CachedRecord { kind: k, url: kept },
            Request::RecordByUrl(asked),
        ) && k == kind && kept@ == url && asked@ == url,
    }
}

/// The end of a resolution on a document from the store: the entity that
/// the document reads as, or `Fetch` where it reads as none.
pub open spec fn ends_with(post: Step, found: Option<EntityView>) -> bool {
    match found {
        Some(e) => post matches Step::Done(x) && x@ == e,
        None => post == Step::Fail(Error::Fetch),
    }
}

/// What follows a fetch of the entity `e` with the document `data`: an
/// actor is stored at once; for an activity or object the store is first
/// asked for the actor that it belongs to.
pub open spec fn stores_fetched(post: Step, e: EntityView, data: serde_json::Value) -> bool {
    match e {
        EntityView::Actor(a) => post matches Step::Ask(
            Resolver::StoringActor { actor },
            Request::InsertActor { username, data: d },
        ) && actor@ == a && username@ == a.username && d == data,
        _ => post matches Step::Ask(
            Resolver::OwnerCached { entity, data: d },
            Request::ActorByUrl(u),
        ) && entity@ == e && d == data && u@ == e.owner(),
    }
}

/// The transition of the resolver: from the state `pre` and the answer
/// `reply` to `post`.
pub open spec fn resolves(pre: Resolver, reply: Reply, post: Step) -> bool {
    match pre {
        Resolver::CachedActor { kind, url } => match reply {
            Reply::ActorRow { id, data } => ends_with(post, stored_as(Kind::Actor, data)),
            _ => if kind == Kind::Any {
                post == Step::Ask(Resolver::CachedRecord { kind, url }, Request::RecordByUrl(url))
            } else {
                post == Step::Ask(Resolver::Remote { kind }, Request::Get(url))
            },
        },
        Resolver::CachedRecord { kind, url } => match reply {
            Reply::Record(data) => ends_with(post, stored_as(kind, data)),
            _ => post == Step::Ask(Resolver::Remote { kind }, Request::Get(url)),
        },
        Resolver::Remote { kind } => match reply {
            Reply::Body(data) => if entity_of(data) is Some && kind.admits(
                entity_of(data).unwrap(),
            ) {
                stores_fetched(post, entity_of(data).unwrap(), data)
            } else {
                post == Step::Fail(Error::Fetch)
            },
            _ => post == Step::Fail(Error::Fetch),
        },
        Resolver::StoringActor { actor } => match reply {
            Reply::ActorRow { .. } => post == Step::Done(Entity::Actor(actor)),
            _ => post == Step::Fail(reply.failure()),
        },
        Resolver::OwnerCached { entity, data } => match reply {
            Reply::ActorRow { id, data: row } => match actor_of(row) {
                Some(a) => post matches Step::Ask(
                    Resolver::OwnerRow { entity: e, data: d },
                    Request::ActorByUrl(u),
                ) && e == entity && d == data && u@ == a.id,
                None => post == Step::Fail(Error::Fetch),
            },
            _ => post matches Step::Ask(Resolver::OwnerRemote { entity: e, data: d }, Request::Get(u))
                && e == entity && d == data && u@ == entity@.owner(),
        },
        Resolver::OwnerRemote { entity, data } => match reply {
            Reply::Body(body) => match entity_of(body) {
                Some(EntityView::Actor(a)) => post matches Step::Ask(
                    Resolver::OwnerStoring { entity: e, data: d, owner },
                    Request::InsertActor { username, data: b },
                ) && e == entity && d == data && owner@ == a.id && username@ == a.username && b
                    == body,
                _ => post == Step::Fail(Error::Fetch),
            },
            _ => post == Step::Fail(Error::Fetch),
        },
        Resolver::OwnerStoring { entity, data, owner } => match reply {
            Reply::ActorRow { .. } => post == Step::Ask(
                Resolver::OwnerRow { entity, data },
                Request::ActorByUrl(owner),
            ),
            _ => post == Step::Fail(reply.failure()),
        },
        Resolver::OwnerRow { entity, data } => match reply {
            Reply::ActorRow { id, .. } => post matches Step::Ask(
                Resolver::Storing { entity: e },
                Request::InsertRecord { owner, id: record, data: d },
            ) && e == entity && owner == id && record@ == entity@.id() && d == data,
            _ => post == Step::Fail(reply.failure()),
        },
        Resolver::Storing { entity } => match reply {
            Reply::Done => post == Step::Done(entity),
            _ => post == Step::Fail(reply.failure()),
        },
    }
}

impl Resolver {
    /// What holds of every state that a resolution reaches: the entity
    /// that waits for its owner is what its document reads as, and is no
    /// actor.
    pub open spec fn wf(self) -> bool {
        match self {
            Resolver::OwnerCached { entity, data } => entity_of(data) == Some(entity@) && !(entity
                is Actor),
            Resolver::OwnerRemote { entity, data } => entity_of(data) == Some(entity@) && !(entity
                is Actor),
            Resolver::OwnerStoring { entity, data, owner } => entity_of(data) == Some(entity@)
                && !(entity is Actor),
            Resolver::OwnerRow { entity, data } => entity_of(data) == Some(entity@) && !(entity
                is Actor),
            _ => true,
        }
    }

    /// A bound on the requests that are still to come, the one that is
    /// out included.
    pub open spec fn remaining(self) -> nat {
        match self {
            Resolver::CachedActor { .. } => 8,
            Resolver::CachedRecord { .. } => 7,
            Resolver::Remote { .. } => 6,
            Resolver::OwnerCached { .. } => 5,
            Resolver::OwnerRemote { .. } => 4,
            Resolver::OwnerStoring { .. } => 3,
            Resolver::OwnerRow { .. } => 2,
            Resolver::StoringActor { .. } => 1,
            Resolver::Storing { .. } => 1,
        }
    }

    /// Begins to resolve `url` to an entity of `kind`. Nothing is fetched
    /// before the store has been asked.
    pub fn start(kind: Kind, url: &str) -> (post: Step)
        ensures
            begins(kind, url@, post),
    {
        match kind {
            Kind::Actor | Kind::Any => Step::Ask(
                Resolver::CachedActor { kind, url: url.to_owned() },
                Request::ActorByUrl(url.to_owned()),
            ),
            _ => Step::Ask(
                Resolver::CachedRecord { kind, url: url.to_owned() },
                Request::RecordByUrl(url.to_owned()),
            ),
        }
    }

    /// Takes the answer to the request that is out and decides what
    /// follows.
    pub fn step(self, reply: Reply) -> (post: Step)
        ensures
            resolves(self, reply, post),
    {
        match self {
            Resolver::CachedActor { kind, url } => match reply {
                Reply::ActorRow { id: _, data } => finish(read_stored(Kind::Actor, &data)),
                _ => match kind {
                    Kind::Any => {
                        let asked = url.clone();
                        Step::Ask(Resolver::CachedRecord { kind, url }, Request::RecordByUrl(asked))
                    },
                    _ => Step::Ask(Resolver::Remote { kind }, Request::Get(url)),
                },
            },
            Resolver::CachedRecord { kind, url } => match reply {
                Reply::Record(data) => finish(read_stored(kind, &data)),
                _ => Step::Ask(Resolver::Remote { kind }, Request::Get(url)),
            },
            Resolver::Remote { kind } => match reply {
                Reply::Body(data) => match classify(&data) {
                    Ok(entity) => {
                        if !entity.is_of(kind) {
                            return Step::Fail(Error::Fetch);
                        }
                        match entity {
                            Entity::Actor(actor) => {
                                let username = actor.username.clone();
                                Step::Ask(
                                    Resolver::StoringActor { actor },
                                    Request::InsertActor { username, data },
                                )
                            },
                            entity => {
                                let owner = entity.owner().clone();
                                Step::Ask(
                                    Resolver::OwnerCached { entity, data },
                                    Request::ActorByUrl(owner),
                                )
                            },
                        }
                    },
                    Err(_) => Step::Fail(Error::Fetch),
                },
                _ => Step::Fail(Error::Fetch),
            },
            Resolver::StoringActor { actor } => match reply {
                Reply::ActorRow { .. } => Step::Done(Entity::Actor(actor)),
                other => Step::Fail(other.failure()),
            },
            Resolver::OwnerCached { entity, data } => match reply {
                Reply::ActorRow { id: _, data: row } => match parse_actor(&row) {
                    Some(actor) => Step::Ask(
                        Resolver::OwnerRow { entity, data },
                        Request::ActorByUrl(actor.id),
                    ),
                    None => Step::Fail(Error::Fetch),
                },
                _ => {
                    let owner = entity.owner().clone();
                    Step::Ask(Resolver::OwnerRemote { entity, data }, Request::Get(owner))
                },
            },
            Resolver::OwnerRemote { entity, data } => match reply {
                Reply::Body(body) => match classify(&body) {
                    Ok(Entity::Actor(actor)) => Step::Ask(
                        Resolver::OwnerStoring { entity, data, owner: actor.id },
                        Request::InsertActor { username: actor.username, data: body },
                    ),
                    _ => Step::Fail(Error::Fetch),
                },
                _ => Step::Fail(Error::Fetch),
            },
            Resolver::OwnerStoring { entity, data, owner } => match reply {
                Reply::ActorRow { .. } => Step::Ask(
                    Resolver::OwnerRow { entity, data },
                    Request::ActorByUrl(owner),
                ),
                other => Step::Fail(other.failure()),
            },
            Resolver::OwnerRow { entity, data } => match reply {
                Reply::ActorRow { id, data: _ } => {
                    let record = entity.id().clone();
                    Step::Ask(
                        Resolver::Storing { entity },
                        Request::InsertRecord { owner: id, id: record, data },
                    )
                },
                other => Step::Fail(other.failure()),
            },
            Resolver::Storing { entity } => match reply {
                Reply::Done => Step::Done(entity),
                other => Step::Fail(other.failure()),
            },
        }
    }
}

/// Ends a resolution with what a stored document was read as.
fn finish(found: Result<Entity, Error>) -> (post: Step)
    ensures
        match found {
            Ok(e) => post == Step::Done(e),
            Err(err) => post == Step::Fail(err),
        },
{
    match found {
        Ok(e) => Step::Done(e),
        Err(err) => Step::Fail(err),
    }
}

/// Begins to resolve `url` to an activity.
pub fn fetch_activity(url: &str) -> (post: Step)
    ensures
        begins(Kind::Activity, url@, post),
{
    Resolver::start(Kind::Activity, url)
}

/// Begins to resolve `url` to an actor.
pub fn fetch_actor(url: &str) -> (post: Step)
    ensures
        begins(Kind::Actor, url@, post),
{
    Resolver::start(Kind::Actor, url)
}

/// Begins to resolve `url` to an object.
pub fn fetch_object(url: &str) -> (post: Step)
    ensures
        begins(Kind::Object, url@, post),
{
    Resolver::start(Kind::Object, url)
}

/// Begins to resolve `url` to whatever it names.
pub fn fetch_any(url: &str) -> (post: Step)
    ensures
        begins(Kind::Any, url@, post),
{
    Resolver::start(Kind::Any, url)
}

} // verus!
