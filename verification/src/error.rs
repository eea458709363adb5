//! The ways in which processing an inbound activity fails.

use vstd::prelude::*;

verus! {

/// The terminal failure of one request. Nothing is retried.
#[derive(Clone, Copy, Debug, PartialEq, Eq, Structural)]
pub enum Error {
    /// The remote origin could not be reached, answered outside 2xx, or
    /// sent content that cannot be interpreted.
    Fetch,
    /// The activity's type tag is not one that has a handler.
    UnknownActivity,
    /// The signature, the ownership or the Undo's author did not match.
    /// Which of them failed is deliberately not told.
    Unauthorized,
    /// An entity that had to exist locally is absent.
    NotFound,
}

/// The status that a successful handler reports: "Created".
pub const CREATED: u16 = 201;

impl Error {
    /// The HTTP status under which the failure is reported.
    pub open spec fn spec_status(self) -> u16 {
        match self {
            Error::Fetch => 500u16,
            Error::UnknownActivity => 400u16,
            Error::Unauthorized => 401u16,
            Error::NotFound => 404u16,
        }
    }

    /// The HTTP status under which the failure is reported: 401 for every
    /// authorization failure, a client error for an unknown activity.
    #[verifier::when_used_as_spec(spec_status)]
    pub fn status(self) -> (r: u16)
        ensures
            r == self.spec_status(),
            r != CREATED,
    {
        match self {
            Error::Fetch => 500,
            Error::UnknownActivity => 400,
            Error::Unauthorized => 401,
            Error::NotFound => 404,
        }
    }
}

} // verus!
