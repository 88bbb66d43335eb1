//! Access guard: every mutating or listing request must carry the process-wide
//! shared secret in its credential header; fetching a published page is
//! intentionally open.

use vstd::prelude::*;
use crate::strutil::str_eq;

verus! {

/// What examining a request's credential header can conclude.
#[derive(Debug, PartialEq, Eq, Clone, Copy)]
pub enum AuthOutcome {
    /// The header was present and equal to the configured secret.
    Authorized,
    /// The header was absent.
    Missing,
    /// The header was present but not equal to the configured secret.
    Invalid,
}

/// The view of an optional credential header as an optional character
/// sequence.
pub open spec fn key_view(key: Option<&String>) -> Option<Seq<char>> {
    match key {
        None => None,
        Some(k) => Some(k@),
    }
}

/// The guard's verdict on a header value, given the configured secret.
pub open spec fn auth_of(key: Option<Seq<char>>, secret: Seq<char>) -> AuthOutcome {
    match key {
        None => AuthOutcome::Missing,
        Some(k) => if k == secret {
            AuthOutcome::Authorized
        } else {
            AuthOutcome::Invalid
        },
    }
}

/// Compares the request's credential header against the configured secret.
pub fn check_auth(api_key: Option<&String>, secret: &String) -> (r: AuthOutcome)
    ensures
        r == auth_of(key_view(api_key), secret@),
{
    match api_key {
        None => AuthOutcome::Missing,
        Some(k) => {
            if str_eq(k.as_str(), secret.as_str()) {
                AuthOutcome::Authorized
            } else {
                AuthOutcome::Invalid
            }
        },
    }
}

} // verus!
