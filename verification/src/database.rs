//! The actor rows of the store, and how one is picked among them.

use crate::error::Error;
use crate::json::{string_member, text_at};
use crate::model::is_text;
use crate::protocol::Reply;
use vstd::prelude::*;

verus! {

/// A stored actor: the row's key, the local credentials where the actor is
/// local, and the actor's document.
#[derive(Debug, PartialEq)]
pub struct Actor {
    pub id: u128,
    pub username: String,
    pub email: Option<String>,
    pub password_hash: Option<String>,
    pub private_key: Option<String>,
    pub actor: serde_json::Value,
    pub remote: bool,
}

impl Actor {
    /// A remote actor holds no credentials: neither a password hash nor a
    /// private key.
    pub open spec fn wf(&self) -> bool {
        self.remote ==> self.private_key is None && self.password_hash is None
    }

    /// Whether the row's document gives `url` as the actor's id.
    pub open spec fn has_url(&self, url: Seq<char>) -> bool {
        text_at(self.actor, "id"@) == Some(url)
    }

    /// Whether the row is the local actor of that name.
    pub open spec fn is_local(&self, username: Seq<char>) -> bool {
        self.username@ == username && !self.remote
    }

    /// The row of a remote actor that was fetched with the document
    /// `actor`.
    pub fn remote(id: u128, username: String, actor: serde_json::Value) -> (row: Actor)
        ensures
            row.wf(),
            row == (Actor {
                id,
                username,
                email: None,
                password_hash: None,
                private_key: None,
                actor,
                remote: true,
            }),
    {
        Actor {
            id,
            username,
            email: None,
            password_hash: None,
            private_key: None,
            actor,
            remote: true,
        }
    }

    /// The row as the answer to a lookup or an insert.
    pub fn into_reply(self) -> (r: Reply)
        ensures
            r == (Reply::ActorRow { id: self.id, data: self.actor }),
    {
        Reply::ActorRow { id: self.id, data: self.actor }
    }

    /// The first row whose document gives `url` as the actor's id;
    /// `NotFound` where there is none.
    pub fn by_url<'a>(rows: &'a Vec<Actor>, url: &str) -> (r: Result<&'a Actor, Error>)
        ensures
            match r {
                Ok(row) => exists|i: int|
                    0 <= i < rows.len() && *row == #[trigger] rows[i] && row.has_url(url@)
                        && forall|j: int| 0 <= j < i ==> !(#[trigger] rows[j]).has_url(url@),
                Err(e) => e == Error::NotFound && forall|i: int|
                    0 <= i < rows.len() ==> !(#[trigger] rows[i]).has_url(url@),
            },
    {
        let mut i: usize = 0;
        while i < rows.len()
            invariant
                i <= rows.len(),
                forall|j: int| 0 <= j < i ==> !(#[trigger] rows[j]).has_url(url@),
            decreases rows.len() - i,
        {
            let found = match string_member(&rows[i].actor, "id") {
                Some(id) => is_text(&id, url),
                None => false,
            };
            if found {
                return Ok(&rows[i]);
            }
            i += 1;
        }
        Err(Error::NotFound)
    }

    /// The first row of a local actor of that name; `NotFound` where
    /// there is none.
    pub fn by_username_local<'a>(rows: &'a Vec<Actor>, username: &str) -> (r: Result<
        &'a Actor,
        Error,
    >)
        ensures
            match r {
                Ok(row) => exists|i: int|
                    0 <= i < rows.len() && *row == #[trigger] rows[i] && row.is_local(username@)
                        && forall|j: int|
                        0 <= j < i ==> !(#[trigger] rows[j]).is_local(username@),
                Err(e) => e == Error::NotFound && forall|i: int|
                    0 <= i < rows.len() ==> !(#[trigger] rows[i]).is_local(username@),
            },
    {
        let mut i: usize = 0;
        while i < rows.len()
            invariant
                i <= rows.len(),
                forall|j: int| 0 <= j < i ==> !(#[trigger] rows[j]).is_local(username@),
            decreases rows.len() - i,
        {
            if !rows[i].remote && is_text(&rows[i].username, username) {
                return Ok(&rows[i]);
            }
            i += 1;
        }
        Err(Error::NotFound)
    }
}

} // verus!
