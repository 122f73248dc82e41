//! The error taxonomy of the controller.
//!
//! Each variant marks one failure class the reconciliation loop must treat
//! differently: a malformed resource is not retried until its owner fixes it,
//! a failed issuance or cache write is retried with backoff, and a broken
//! watch only triggers a resynchronization.

use vstd::prelude::*;

verus! {

/// The identity field an owner reference needs but the resource lacked.
#[derive(Clone, Copy, Debug, PartialEq, Eq, Structural)]
pub enum IdentityField {
    /// `.metadata.name` was absent.
    Name,
    /// `.metadata.uid` was absent.
    Uid,
}

/// One failure of a reconciliation attempt.
#[derive(Clone, Copy, Debug, PartialEq, Eq, Structural)]
pub enum Error {
    /// The issuer resource lacks the name or unique identifier an owner
    /// reference must carry; fatal for this resource until its owner fixes it.
    MissingIdentityField(IdentityField),
    /// The certificate authority failed to issue for the domain; retryable.
    IssuanceFailed,
    /// Persisting the cache object or one namespace copy failed; retryable
    /// for the cache, swallowed per namespace by the best-effort fan-out.
    StoreWriteFailed,
    /// The watch transport dropped; a resynchronization follows, the loop
    /// never surfaces this to the user.
    WatchDisconnected,
}

} // verus!
