//! Typed failures of the account operations.

use vstd::prelude::*;

verus! {

/// Why an authentication operation failed.
#[derive(Clone, Copy, Debug, PartialEq, Eq, Structural)]
pub enum AuthError {
    /// The identity backend rejected the email/password pair.
    InvalidCredentials,
    /// No stored record exists for the identity, so a silent login
    /// cannot even be attempted.
    NoStoredCredential,
    /// The backend rejected a stored secret as revoked or expired;
    /// the stale record has been purged as a side effect.
    StoredCredentialExpired,
    /// The backend could not be reached; no state was changed.
    BackendUnavailable,
    /// The persistence layer failed to read or durably commit a record.
    /// The in-memory core never raises this; the embedding shell maps
    /// store-backend failures to it.
    Persistence,
}

/// Why an account deletion failed.  Either way the backend still holds
/// the account, so no local state was touched.
#[derive(Clone, Copy, Debug, PartialEq, Eq, Structural)]
pub enum AccountError {
    /// The backend refused the deletion and reported this code.
    BackendRefused(u32),
    /// The backend could not be reached.
    BackendUnavailable,
}

} // verus!
