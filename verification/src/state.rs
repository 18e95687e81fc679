//! The mathematical model of the core: its abstract state and the
//! transition each operation performs on it.
//!
//! Every operation of [`crate::account::AccountCore`] promises in its
//! `ensures` that the new state is exactly the corresponding transition
//! applied to the old one, so the laws in [`crate::laws`] about these
//! transitions carry over to the executable code.

use vstd::prelude::*;
use crate::backend::{AuthVerdictView, DeleteVerdict, StoredVerdict};
use crate::session::SessionView;

verus! {

/// Abstract state of the core: the stored credentials (identity to
/// stored secret) and the current session, if any.
#[verifier::ext_equal]
pub struct StateView {
    pub store: Map<Seq<char>, Seq<char>>,
    pub session: Option<SessionView>,
}

/// The identity of the current session, if one exists.
pub open spec fn logged_identity(s: StateView) -> Option<Seq<char>> {
    match s.session {
        Some(sv) => Some(sv.identity),
        None => None,
    }
}

/// Transition of an email/password login, decided by the backend's
/// verdict.  On acceptance the session is set to the identity
/// (displacing any previous session) and a backend-issued stored-secret
/// token, if any, is upserted; a rejected or unanswered request changes
/// nothing.
pub open spec fn login_email_step(
    s: StateView,
    identity: Seq<char>,
    verdict: AuthVerdictView,
    at: u64,
) -> StateView {
    match verdict {
        AuthVerdictView::Accepted { stored_token } => StateView {
            store: match stored_token {
                Some(token) => s.store.insert(identity, token),
                None => s.store,
            },
            session: Some(SessionView { identity, established_at: at }),
        },
        AuthVerdictView::Rejected => s,
        AuthVerdictView::Unreachable => s,
    }
}

/// Transition of the backend's re-validation of a stored secret.  On
/// acceptance the session is set to the identity; on rejection the
/// stale record is purged (self-healing) and the session is untouched;
/// an unanswered request changes nothing.
pub open spec fn stored_login_step(
    s: StateView,
    identity: Seq<char>,
    verdict: StoredVerdict,
    at: u64,
) -> StateView {
    match verdict {
        StoredVerdict::Accepted => StateView {
            store: s.store,
            session: Some(SessionView { identity, established_at: at }),
        },
        StoredVerdict::Rejected => StateView { store: s.store.remove(identity), session: s.session },
        StoredVerdict::Unreachable => s,
    }
}

/// Transition of session invalidation: the session is cleared, stored
/// credentials are kept.
pub open spec fn invalidate_step(s: StateView) -> StateView {
    StateView { store: s.store, session: None }
}

/// Transition of an account deletion, decided by the backend's verdict.
/// Only after the backend deleted the account is local state touched:
/// the stored record is removed and a session for that same identity is
/// cleared.  On refusal or unreachability nothing local changes.
pub open spec fn delete_step(s: StateView, identity: Seq<char>, verdict: DeleteVerdict) -> StateView {
    match verdict {
        DeleteVerdict::Accepted => StateView {
            store: s.store.remove(identity),
            session: if logged_identity(s) == Some(identity) {
                None
            } else {
                s.session
            },
        },
        DeleteVerdict::Refused(_) => s,
        DeleteVerdict::Unreachable => s,
    }
}

} // verus!
