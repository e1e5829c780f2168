use vstd::prelude::*;

verus! {

/// Errors that the service answers a request with.
#[derive(Debug, Clone, Copy, PartialEq, Eq, Structural)]
pub enum ServiceError {
    /// Something went wrong on the server side.
    InternalServerError,
    /// The request could not be authenticated.
    Unauthorized,
}

} // verus!
