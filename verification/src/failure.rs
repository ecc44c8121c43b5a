//! The three ways in which a request can fail.

use vstd::prelude::*;

verus! {

/// Why a request was turned down.
#[derive(Clone, Copy, Debug, PartialEq, Eq, Structural)]
pub enum Failure {
    /// The credential is missing, malformed, forged or expired.
    Unauthorized,
    /// The identity or the resource asked for does not exist.
    NotFound,
    /// The store, or something else beneath the service, is at fault.
    InternalError,
}

impl Failure {
    /// The HTTP status that stands for this failure.
    pub open spec fn status(self) -> int {
        match self {
            Failure::Unauthorized => 401,
            Failure::NotFound => 404,
            Failure::InternalError => 500,
        }
    }

    /// Gives the HTTP status that the boundary layer answers with.
    pub fn status_code(self) -> (code: u16)
        ensures
            code == self.status(),
    {
        match self {
            Failure::Unauthorized => 401,
            Failure::NotFound => 404,
            Failure::InternalError => 500,
        }
    }
}

} // verus!
