//! The error taxonomy of the service's API surface.

use vstd::prelude::*;

verus! {

/// A user-visible failure with a stable reason message. Store failures
/// surface as `Internal` and abort the enclosing transaction, so partial
/// mutation is never observed.
#[derive(Debug)]
pub enum ApiError {
    /// A room, entry, run or instance is absent or not visible.
    NotFound(String),
    /// A malformed identifier, wrong ownership, invalid level or an action
    /// in the wrong phase.
    BadRequest(String),
    /// A missing or invalid caller identity.
    Unauthorized(String),
    /// A store failure or a broken invariant.
    Internal(String),
}

impl ApiError {
    /// The human-readable reason carried by the error.
    pub fn message(&self) -> (r: &String)
        ensures
            self matches ApiError::NotFound(m) ==> r == m,
            self matches ApiError::BadRequest(m) ==> r == m,
            self matches ApiError::Unauthorized(m) ==> r == m,
            self matches ApiError::Internal(m) ==> r == m,
    {
        match self {
            ApiError::NotFound(m) => m,
            ApiError::BadRequest(m) => m,
            ApiError::Unauthorized(m) => m,
            ApiError::Internal(m) => m,
        }
    }
}

} // verus!
