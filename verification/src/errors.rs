//! The failures a request can run into, and how each maps to a client-facing
//! status code.

use vstd::prelude::*;

verus! {

/// Everything that can go wrong while serving a request. Authentication
/// failures are told apart from the rest because they map to a different
/// status code.
#[derive(Debug, PartialEq, Eq, Clone, Copy)]
pub enum ApiError {
    /// The credential header was absent.
    AuthMissing,
    /// The credential header was present but did not match the secret.
    AuthInvalid,
    /// The document name holds a character outside the allowed set.
    InvalidName,
    /// No document of that name is stored.
    FileNotFound,
    /// The uploaded body is larger than the configured cap.
    PayloadTooLarge,
}

/// The status code a request outcome maps to: success is 200, an
/// authentication failure is 400, every other failure is 422.
pub open spec fn status_code_of(r: Result<(), ApiError>) -> u16 {
    match r {
        Ok(()) => 200,
        Err(ApiError::AuthMissing) => 400,
        Err(ApiError::AuthInvalid) => 400,
        Err(_) => 422,
    }
}

/// Maps an operation outcome to the status code reported to the client.
pub fn status_of(r: &Result<(), ApiError>) -> (code: u16)
    ensures
        code == status_code_of(*r),
{
    match r {
        Ok(()) => 200,
        Err(ApiError::AuthMissing) => 400,
        Err(ApiError::AuthInvalid) => 400,
        Err(_) => 422,
    }
}

} // verus!
