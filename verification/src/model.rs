//! Actors, activities and objects, and how each is read from a JSON
//! document.
//!
//! The types hold what the inbound pipeline reads of an entity; the document
//! itself travels beside them and is what gets stored.

use crate::json::{json_member, json_text, member, string_member, text, text_at};
use vstd::prelude::*;

verus! {

/// A federated identity.
#[derive(Clone, Debug, PartialEq)]
pub struct Actor {
    /// The actor's canonical URL.
    pub id: String,
    pub username: String,
    /// The PEM text of the key that verifies what the actor signs.
    pub public_key_pem: String,
}

pub struct ActorView {
    pub id: Seq<char>,
    pub username: Seq<char>,
    pub public_key_pem: Seq<char>,
}

impl View for Actor {
    type V = ActorView;

    open spec fn view(&self) -> ActorView {
        ActorView {
            id: self.id@,
            username: self.username@,
            public_key_pem: self.public_key_pem@,
        }
    }
}

/// An attributed payload, such as a post.
#[derive(Clone, Debug, PartialEq)]
pub struct Object {
    pub id: String,
    pub kind: String,
    /// The URL of the actor that the object belongs to.
    pub attributed_to: String,
}

pub struct ObjectView {
    pub id: Seq<char>,
    pub kind: Seq<char>,
    pub attributed_to: Seq<char>,
}

impl View for Object {
    type V = ObjectView;

    open spec fn view(&self) -> ObjectView {
        ObjectView { id: self.id@, kind: self.kind@, attributed_to: self.attributed_to@ }
    }
}

/// What an activity acts on: an inline actor, an inline object, or a bare
/// URL that has yet to be resolved.
#[derive(Clone, Debug, PartialEq)]
pub enum ObjectField {
    Actor(Actor),
    Object(Object),
    Url(String),
}

pub enum ObjectFieldView {
    Actor(ActorView),
    Object(ObjectView),
    Url(Seq<char>),
}

impl View for ObjectField {
    type V = ObjectFieldView;

    open spec fn view(&self) -> ObjectFieldView {
        match self {
            ObjectField::Actor(a) => ObjectFieldView::Actor(a@),
            ObjectField::Object(o) => ObjectFieldView::Object(o@),
            ObjectField::Url(u) => ObjectFieldView::Url(u@),
        }
    }
}

impl ObjectField {
    /// The URL, where the field is a bare URL.
    pub fn as_url(&self) -> (r: Option<&String>)
        ensures
            match r {
                Some(u) => *self == ObjectField::Url(*u),
                None => !(self is Url),
            },
    {
        match self {
            ObjectField::Url(u) => Some(u),
            _ => None,
        }
    }
}

/// A protocol message: `actor` claims to have done `kind` to `object`.
#[derive(Clone, Debug, PartialEq)]
pub struct Activity {
    pub id: String,
    /// The type tag, as it stood in the document.
    pub kind: String,
    /// The URL of the claimed sender.
    pub actor: String,
    pub object: ObjectField,
}

pub struct ActivityView {
    pub id: Seq<char>,
    pub kind: Seq<char>,
    pub actor: Seq<char>,
    pub object: ObjectFieldView,
}

impl View for Activity {
    type V = ActivityView;

    open spec fn view(&self) -> ActivityView {
        ActivityView { id: self.id@, kind: self.kind@, actor: self.actor@, object: self.object@ }
    }
}

/// Whether `s` reads exactly as `word`.
pub fn is_text(s: &String, word: &str) -> (r: bool)
    ensures
        r == (s@ == word@),
{
    let w: String = word.to_owned();
    *s == w
}

/// The actor that a document describes: an object tagged `Person` with a
/// string `id`, a string `preferredUsername` and a `publicKey` object that
/// holds a string `publicKeyPem`.
pub open spec fn actor_of(doc: serde_json::Value) -> Option<ActorView> {
    if text_at(doc, "type"@) == Some("Person"@) && text_at(doc, "id"@) is Some && text_at(
        doc,
        "preferredUsername"@,
    ) is Some && json_member(doc, "publicKey"@) is Some && text_at(
        json_member(doc, "publicKey"@).unwrap(),
        "publicKeyPem"@,
    ) is Some {
        Some(
            ActorView {
                id: text_at(doc, "id"@).unwrap(),
                username: text_at(doc, "preferredUsername"@).unwrap(),
                public_key_pem: text_at(
                    json_member(doc, "publicKey"@).unwrap(),
                    "publicKeyPem"@,
                ).unwrap(),
            },
        )
    } else {
        None
    }
}

/// The object that a document describes: string members `id`, `type` and
/// `attributedTo`.
pub open spec fn object_of(doc: serde_json::Value) -> Option<ObjectView> {
    if text_at(doc, "id"@) is Some && text_at(doc, "type"@) is Some && text_at(
        doc,
        "attributedTo"@,
    ) is Some {
        Some(
            ObjectView {
                id: text_at(doc, "id"@).unwrap(),
                kind: text_at(doc, "type"@).unwrap(),
                attributed_to: text_at(doc, "attributedTo"@).unwrap(),
            },
        )
    } else {
        None
    }
}

/// The shape of an activity's `object` member: a string is a bare URL;
/// otherwise an actor where the member describes one, else an object.
pub open spec fn field_of(doc: serde_json::Value) -> Option<ObjectFieldView> {
    if json_text(doc) is Some {
        Some(ObjectFieldView::Url(json_text(doc).unwrap()))
    } else if actor_of(doc) is Some {
        Some(ObjectFieldView::Actor(actor_of(doc).unwrap()))
    } else if object_of(doc) is Some {
        Some(ObjectFieldView::Object(object_of(doc).unwrap()))
    } else {
        None
    }
}

/// The activity that a document describes: string members `id`, `type` and
/// `actor`, and an `object` member of one of the three shapes.
pub open spec fn activity_of(doc: serde_json::Value) -> Option<ActivityView> {
    if text_at(doc, "id"@) is Some && text_at(doc, "type"@) is Some && text_at(doc, "actor"@)
        is Some && json_member(doc, "object"@) is Some && field_of(
        json_member(doc, "object"@).unwrap(),
    ) is Some {
        Some(
            ActivityView {
                id: text_at(doc, "id"@).unwrap(),
                kind: text_at(doc, "type"@).unwrap(),
                actor: text_at(doc, "actor"@).unwrap(),
                object: field_of(json_member(doc, "object"@).unwrap()).unwrap(),
            },
        )
    } else {
        None
    }
}

/// Reads an actor from a document.
pub fn parse_actor(doc: &serde_json::Value) -> (r: Option<Actor>)
    ensures
        match r {
            Some(a) => actor_of(*doc) == Some(a@),
            None => actor_of(*doc) is None,
        },
{
    let kind = string_member(doc, "type");
    let id = string_member(doc, "id");
    let username = string_member(doc, "preferredUsername");
    let key = member(doc, "publicKey");
    match (kind, id, username, key) {
        (Some(kind), Some(id), Some(username), Some(key)) => {
            if !is_text(&kind, "Person") {
                return None;
            }
            match string_member(key, "publicKeyPem") {
                Some(public_key_pem) => Some(Actor { id, username, public_key_pem }),
                None => None,
            }
        },
        _ => None,
    }
}

/// Reads an object from a document.
pub fn parse_object(doc: &serde_json::Value) -> (r: Option<Object>)
    ensures
        match r {
            Some(o) => object_of(*doc) == Some(o@),
            None => object_of(*doc) is None,
        },
{
    let id = string_member(doc, "id");
    let kind = string_member(doc, "type");
    let attributed_to = string_member(doc, "attributedTo");
    match (id, kind, attributed_to) {
        (Some(id), Some(kind), Some(attributed_to)) => Some(Object { id, kind, attributed_to }),
        _ => None,
    }
}

/// Reads the `object` member of an activity.
pub fn parse_field(doc: &serde_json::Value) -> (r: Option<ObjectField>)
    ensures
        match r {
            Some(f) => field_of(*doc) == Some(f@),
            None => field_of(*doc) is None,
        },
{
    if let Some(url) = text(doc) {
        return Some(ObjectField::Url(url.to_owned()));
    }
    if let Some(actor) = parse_actor(doc) {
        return Some(ObjectField::Actor(actor));
    }
    match parse_object(doc) {
        Some(object) => Some(ObjectField::Object(object)),
        None => None,
    }
}

/// Reads an activity from a document.
pub fn parse_activity(doc: &serde_json::Value) -> (r: Option<Activity>)
    ensures
        match r {
            Some(a) => activity_of(*doc) == Some(a@),
            None => activity_of(*doc) is None,
        },
{
    let id = string_member(doc, "id");
    let kind = string_member(doc, "type");
    let actor = string_member(doc, "actor");
    let object = member(doc, "object");
    match (id, kind, actor, object) {
        (Some(id), Some(kind), Some(actor), Some(object)) => {
            match parse_field(object) {
                Some(object) => Some(Activity { id, kind, actor, object }),
                None => None,
            }
        },
        _ => None,
    }
}

} // verus!
