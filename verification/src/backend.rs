//! Values that cross the boundary to the external identity backend.
//!
//! The backend itself (a network service) is outside the core.  The
//! embedding shell sends it the request and hands the outcome back to
//! the core as one of the verdict values below; the core's reaction to
//! each verdict is verified.

use vstd::prelude::*;

verus! {

/// The backend's answer to an email/password authentication request.
pub enum AuthVerdict {
    /// The pair was accepted.  The backend may also have issued a
    /// long-lived opaque stored-secret token for later silent login;
    /// the plaintext password itself is never handed to the core.
    Accepted { stored_token: Option<String> },
    /// The pair was rejected.
    Rejected,
    /// The backend could not be reached (network failure or timeout).
    Unreachable,
}

/// Ghost form of [`AuthVerdict`], with the token as a character sequence.
pub enum AuthVerdictView {
    Accepted { stored_token: Option<Seq<char>> },
    Rejected,
    Unreachable,
}

impl View for AuthVerdict {
    type V = AuthVerdictView;

    open spec fn view(&self) -> AuthVerdictView {
        match self {
            AuthVerdict::Accepted { stored_token: Some(t) } => AuthVerdictView::Accepted {
                stored_token: Some(t@),
            },
            AuthVerdict::Accepted { stored_token: None } => AuthVerdictView::Accepted {
                stored_token: None,
            },
            AuthVerdict::Rejected => AuthVerdictView::Rejected,
            AuthVerdict::Unreachable => AuthVerdictView::Unreachable,
        }
    }
}

/// The backend's answer when re-validating a stored secret.
#[derive(Clone, Copy, Debug, PartialEq, Eq, Structural)]
pub enum StoredVerdict {
    /// The stored secret is still valid.
    Accepted,
    /// The stored secret was revoked or has expired.
    Rejected,
    /// The backend could not be reached.
    Unreachable,
}

/// The backend's answer to an account deletion request.
#[derive(Clone, Copy, Debug, PartialEq, Eq, Structural)]
pub enum DeleteVerdict {
    /// The account was deleted on the backend.
    Accepted,
    /// The backend refused the deletion and reported this code.
    Refused(u32),
    /// The backend could not be reached.
    Unreachable,
}

} // verus!
