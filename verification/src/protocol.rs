//! The outside work that the pipeline asks for, and the answers it takes.
//!
//! The database and the network are not reached from here. Each operation
//! of the library is a state machine: it hands out one [`Request`], the
//! caller carries it out and hands back a [`Reply`], and the machine decides
//! what follows.

use crate::error::Error;
use crate::fetcher::Entity;
use crate::model::Activity;
use vstd::prelude::*;

verus! {

/// Which kind of entity a resolution is to yield.
#[derive(Clone, Copy, Debug, PartialEq, Eq, Structural)]
pub enum Kind {
    Activity,
    Actor,
    Object,
    /// Whatever the URL turns out to name.
    Any,
}

/// The activity types that have a handler.
#[derive(Clone, Copy, Debug, PartialEq, Eq, Structural)]
pub enum ActivityType {
    Accept,
    Create,
    Delete,
    Follow,
    Like,
    Reject,
    Undo,
    Update,
}

/// Where an operation stands: it asks for outside work and goes on in the
/// state `S`, or it has ended with a `T`, or it has failed.
#[derive(Debug, PartialEq)]
pub enum Outcome<S, T> {
    /// Carry out the request, and hand the answer to the state's `step`.
    Ask(S, Request),
    Done(T),
    Fail(Error),
}

/// One piece of outside work.
#[derive(Debug, PartialEq)]
pub enum Request {
    /// Look up the stored actor whose canonical URL this is.
    ActorByUrl(String),
    /// Look up the stored activity or object whose URL this is.
    RecordByUrl(String),
    /// Fetch the URL from its origin, accepting ActivityStreams JSON.
    Get(String),
    /// Store a remote actor under its username, with its document.
    InsertActor { username: String, data: serde_json::Value },
    /// Store an activity or object for the actor row `owner`.
    InsertRecord { owner: u128, id: String, data: serde_json::Value },
    /// Delete the stored activity whose URL this is.
    DeleteActivity(String),
    /// Resolve the URL to an entity of the given kind, by running a
    /// [`crate::fetcher::Resolver`] to its end.
    Resolve(Kind, String),
    /// Verify the request's signature against this PEM public key, over
    /// the request's method, path, headers and this query; `None` where the
    /// request had no query.
    VerifySignature { public_key: String, query: Option<String> },
    /// Run the handler of an activity type whose storage effect is not
    /// decided here.
    Handle { kind: ActivityType, activity: Activity, data: serde_json::Value },
}

/// The answer to a [`Request`].
#[derive(Debug, PartialEq)]
pub enum Reply {
    /// The lookup found nothing.
    Missing,
    /// The work failed.
    Failed(Error),
    /// The actor row that was found or has just been stored.
    ActorRow { id: u128, data: serde_json::Value },
    /// The document of the activity or object that was found.
    Record(serde_json::Value),
    /// The body that the origin sent.
    Body(serde_json::Value),
    /// The insert or delete took place.
    Done,
    /// The entity that the resolution ended with.
    Resolved(Entity),
    /// Whether the signature holds.
    Verified(bool),
}

impl Reply {
    /// The error that a reply stands for where it is not the answer that
    /// was needed: its own where the work failed, `NotFound` where a lookup
    /// found nothing, and `Fetch` otherwise.
    pub open spec fn spec_failure(&self) -> Error {
        match self {
            Reply::Failed(e) => *e,
            Reply::Missing => Error::NotFound,
            _ => Error::Fetch,
        }
    }

    #[verifier::when_used_as_spec(spec_failure)]
    pub fn failure(&self) -> (r: Error)
        ensures
            r == self.spec_failure(),
    {
        match self {
            Reply::Failed(e) => *e,
            Reply::Missing => Error::NotFound,
            _ => Error::Fetch,
        }
    }
}

} // verus!
