//! Like: the liked activity and the liking actor are resolved, then the
//! Like is stored for that actor. A repeated Like is stored again.

use crate::error::{Error, CREATED};
use crate::model::{Activity, ObjectField};
use crate::protocol::{Kind, Outcome, Reply, Request};
use vstd::prelude::*;

verus! {

/// A Like under way.
#[derive(Debug, PartialEq)]
pub enum Like {
    /// The liked activity is being resolved.
    Target { activity: Activity, data: serde_json::Value },
    /// The liking actor is being resolved.
    Sender { activity: Activity, data: serde_json::Value },
    /// The store was asked for the liking actor's row.
    Owner { activity: Activity, data: serde_json::Value },
    /// The store was asked to insert the Like.
    Storing,
}

/// The first step of a Like: its object has to be a bare URL, which is
/// resolved to an activity.
pub open spec fn like_of(activity: Activity, data: serde_json::Value) -> Outcome<Like, u16> {
    match activity.object {
        ObjectField::Url(url) => Outcome::Ask(
            Like::Target { activity, data },
            Request::Resolve(Kind::Activity, url),
        ),
        _ => Outcome::Fail(Error::UnknownActivity),
    }
}

/// The transition of a Like.
pub open spec fn like_step(pre: Like, reply: Reply) -> Outcome<Like, u16> {
    match pre {
        Like::Target { activity, data } => match reply {
            Reply::Resolved(_) => Outcome::Ask(
                Like::Sender { activity, data },
                Request::Resolve(Kind::Actor, activity.actor),
            ),
            _ => Outcome::Fail(reply.failure()),
        },
        Like::Sender { activity, data } => match reply {
            Reply::Resolved(_) => Outcome::Ask(
                Like::Owner { activity, data },
                Request::ActorByUrl(activity.actor),
            ),
            _ => Outcome::Fail(reply.failure()),
        },
        Like::Owner { activity, data } => match reply {
            Reply::ActorRow { id, .. } => Outcome::Ask(
                Like::Storing,
                Request::InsertRecord { owner: id, id: activity.id, data },
            ),
            _ => Outcome::Fail(reply.failure()),
        },
        Like::Storing => match reply {
            Reply::Done => Outcome::Done(CREATED),
            _ => Outcome::Fail(reply.failure()),
        },
    }
}

/// Begins to handle a Like, whose document is `data`.
pub fn handle(activity: Activity, data: serde_json::Value) -> (post: Outcome<Like, u16>)
    ensures
        post == like_of(activity, data),
{
    let url = match activity.object.as_url() {
        Some(url) => url.clone(),
        None => { return Outcome::Fail(Error::UnknownActivity); },
    };
    Outcome::Ask(Like::Target { activity, data }, Request::Resolve(Kind::Activity, url))
}

impl Like {
    /// Takes the answer to the request that is out and decides what
    /// follows. The one write is the insert of the Like itself, asked for
    /// only when the store has handed out the liking actor's row.
    pub fn step(self, reply: Reply) -> (post: Outcome<Like, u16>)
        ensures
            post == like_step(self, reply),
    {
        match self {
            Like::Target { activity, data } => match reply {
                Reply::Resolved(_) => {
                    let actor = activity.actor.clone();
                    Outcome::Ask(Like::Sender { activity, data }, Request::Resolve(Kind::Actor, actor))
                },
                other => Outcome::Fail(other.failure()),
            },
            Like::Sender { activity, data } => match reply {
                Reply::Resolved(_) => {
                    let actor = activity.actor.clone();
                    Outcome::Ask(Like::Owner { activity, data }, Request::ActorByUrl(actor))
                },
                other => Outcome::Fail(other.failure()),
            },
            Like::Owner { activity, data } => match reply {
                Reply::ActorRow { id, data: _ } => Outcome::Ask(
                    Like::Storing,
                    Request::InsertRecord { owner: id, id: activity.id, data },
                ),
                other => Outcome::Fail(other.failure()),
            },
            Like::Storing => match reply {
                Reply::Done => Outcome::Done(CREATED),
                other => Outcome::Fail(other.failure()),
            },
        }
    }
}

} // verus!
