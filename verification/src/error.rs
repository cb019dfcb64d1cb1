//! Error taxonomy of the ledger core, and its mapping to HTTP status codes.

use vstd::prelude::*;

verus! {

/// Every failure the core can report.
///
/// - `NotFound`: the account id references no existing account.
/// - `InvalidInput`: malformed kind, amount or description.
/// - `LimitExceeded`: a debit would push the balance below `-credit_limit`.
/// - `StorageUnavailable`: the durable store is unreachable or timed out;
///   raised only by callers that drive a real store, never by the in-memory
///   core itself.
#[derive(Clone, Copy, Debug, PartialEq, Eq, Structural)]
pub enum Error {
    NotFound,
    InvalidInput,
    LimitExceeded,
    StorageUnavailable,
}

impl Error {
    /// The HTTP status code each error is surfaced as: unknown account is
    /// `404`, rejected input and a breached limit are `422`, and a storage
    /// fault is `500`.
    pub fn http_status(&self) -> (status: u16)
        ensures
            status == match *self {
                Error::NotFound => 404u16,
                Error::InvalidInput => 422u16,
                Error::LimitExceeded => 422u16,
                Error::StorageUnavailable => 500u16,
            },
    {
        match self {
            Error::NotFound => 404,
            Error::InvalidInput => 422,
            Error::LimitExceeded => 422,
            Error::StorageUnavailable => 500,
        }
    }
}

} // verus!
