//! Undo: the activity that is taken back has to exist locally and to be
//! the sender's own; it is then deleted as a whole.

use crate::error::{Error, CREATED};
use crate::model::{activity_of, parse_activity, Activity, ObjectField};
use crate::protocol::{Outcome, Reply, Request};
use vstd::prelude::*;

verus! {

/// An Undo under way.
#[derive(Clone, Debug, PartialEq)]
pub enum Undo {
    /// The store was asked for the undone activity; `actor` is the
    /// sender of the Undo.
    Target { actor: String },
    /// The store was asked to delete the undone activity.
    Deleting,
}

/// The first step of an Undo: its object has to be a bare URL, which is
/// looked up in the store. Nothing is fetched.
pub open spec fn undo_of(activity: Activity) -> Outcome<Undo, u16> {
    match activity.object {
        ObjectField::Url(url) => Outcome::Ask(
            Undo::Target { actor: activity.actor },
            Request::RecordByUrl(url),
        ),
        _ => Outcome::Fail(Error::Fetch),
    }
}

/// Whether the sender `actor` may take back the activity that the store
/// answered with: the answer is a record that reads as an activity of that
/// same actor.
pub open spec fn may_undo(actor: Seq<char>, reply: Reply) -> bool {
    reply matches Reply::Record(data) && activity_of(data) is Some && activity_of(
        data,
    ).unwrap().actor == actor
}

/// The transition of an Undo.
pub open spec fn undoes(pre: Undo, reply: Reply, post: Outcome<Undo, u16>) -> bool {
    match pre {
        Undo::Target { actor } => match reply {
            Reply::Record(data) => match activity_of(data) {
                Some(undone) => if undone.actor == actor@ {
                    post matches Outcome::Ask(Undo::Deleting, Request::DeleteActivity(url))
                        && url@ == undone.id
                } else {
                    post == Outcome::<Undo, u16>::Fail(Error::Unauthorized)
                },
                None => post == Outcome::<Undo, u16>::Fail(Error::Fetch),
            },
            _ => post == Outcome::<Undo, u16>::Fail(reply.failure()),
        },
        Undo::Deleting => match reply {
            Reply::Done => post == Outcome::<Undo, u16>::Done(CREATED),
            _ => post == Outcome::<Undo, u16>::Fail(reply.failure()),
        },
    }
}

/// Begins to handle an Undo.
pub fn handle(activity: Activity) -> (post: Outcome<Undo, u16>)
    ensures
        post == undo_of(activity),
{
    let Activity { id: _, kind: _, actor, object } = activity;
    match object {
        ObjectField::Url(url) => Outcome::Ask(Undo::Target { actor }, Request::RecordByUrl(url)),
        _ => Outcome::Fail(Error::Fetch),
    }
}

impl Undo {
    /// Takes the answer to the request that is out and decides what
    /// follows. The delete is asked for if and only if the undone
    /// activity was found and its sender is the Undo's; another sender gets
    /// `Unauthorized`, an absent one `NotFound`, and in neither case is
    /// anything asked of the store.
    pub fn step(self, reply: Reply) -> (post: Outcome<Undo, u16>)
        ensures
            undoes(self, reply, post),
            self matches Undo::Target { actor } ==> (post is Ask <==> may_undo(actor@, reply)),
            self matches Undo::Target { actor } ==> reply matches Reply::Record(data)
                ==> activity_of(data) matches Some(undone) ==> undone.actor != actor@
                ==> post == Outcome::<Undo, u16>::Fail(Error::Unauthorized),
            self is Target && reply is Missing ==> post == Outcome::<Undo, u16>::Fail(
                Error::NotFound,
            ),
    {
        match self {
            Undo::Target { actor } => match reply {
                Reply::Record(data) => match parse_activity(&data) {
                    Some(undone) => {
                        if undone.actor == actor {
                            Outcome::Ask(Undo::Deleting, Request::DeleteActivity(undone.id))
                        } else {
                            Outcome::Fail(Error::Unauthorized)
                        }
                    },
                    None => Outcome::Fail(Error::Fetch),
                },
                other => Outcome::Fail(other.failure()),
            },
            Undo::Deleting => match reply {
                Reply::Done => Outcome::Done(CREATED),
                other => Outcome::Fail(other.failure()),
            },
        }
    }
}

} // verus!
