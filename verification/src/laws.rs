//! Laws of the session lifecycle, stated over the transitions of
//! [`crate::state`].  Since every operation of
//! [`crate::account::AccountCore`] promises that its new state is
//! exactly the matching transition of the old one, each law below holds
//! of the executable operations as well.

use vstd::prelude::*;
use crate::backend::{AuthVerdictView, DeleteVerdict, StoredVerdict};
use crate::state::{
    delete_step, invalidate_step, logged_identity, login_email_step, stored_login_step, StateView,
};

verus! {

/// After an account deletion that the backend accepted, no stored
/// record remains for the identity and no session for it is left.
pub proof fn lemma_delete_account_purges(s: StateView, identity: Seq<char>)
    ensures
        !delete_step(s, identity, DeleteVerdict::Accepted).store.contains_key(identity),
        logged_identity(delete_step(s, identity, DeleteVerdict::Accepted)) != Some(identity),
{
}

/// Invalidation is idempotent: a second invalidation changes nothing,
/// and either way the state is logged out with its stored credentials
/// kept.
pub proof fn lemma_invalidate_idempotent(s: StateView)
    ensures
        invalidate_step(invalidate_step(s)) == invalidate_step(s),
        logged_identity(invalidate_step(s)) == None::<Seq<char>>,
        invalidate_step(s).store == s.store,
{
}

/// A backend rejection of the stored secret purges exactly that
/// identity's record — every other record and the session survive.
pub proof fn lemma_stored_rejection_purges(s: StateView, identity: Seq<char>, at: u64)
    ensures
        !stored_login_step(s, identity, StoredVerdict::Rejected, at).store.contains_key(identity),
        stored_login_step(s, identity, StoredVerdict::Rejected, at).session == s.session,
        forall|other: Seq<char>|
            other != identity ==> stored_login_step(
                s,
                identity,
                StoredVerdict::Rejected,
                at,
            ).store.contains_key(other) == s.store.contains_key(other),
{
}

/// A session, once established for `i`, stays the session for `i`
/// through every operation except an invalidation, a deletion of `i`
/// itself, and a successful login — and a successful login for `j`
/// leaves the session for `j`, whoever was logged in before.
pub proof fn lemma_session_until_displaced(
    s: StateView,
    i: Seq<char>,
    j: Seq<char>,
    token: Option<Seq<char>>,
    at: u64,
    code: u32,
)
    requires
        logged_identity(s) == Some(i),
    ensures
        logged_identity(login_email_step(s, j, AuthVerdictView::Rejected, at)) == Some(i),
        logged_identity(login_email_step(s, j, AuthVerdictView::Unreachable, at)) == Some(i),
        logged_identity(
            login_email_step(s, j, AuthVerdictView::Accepted { stored_token: token }, at),
        ) == Some(j),
        logged_identity(stored_login_step(s, j, StoredVerdict::Rejected, at)) == Some(i),
        logged_identity(stored_login_step(s, j, StoredVerdict::Unreachable, at)) == Some(i),
        logged_identity(stored_login_step(s, j, StoredVerdict::Accepted, at)) == Some(j),
        i != j ==> logged_identity(delete_step(s, j, DeleteVerdict::Accepted)) == Some(i),
        logged_identity(delete_step(s, j, DeleteVerdict::Refused(code))) == Some(i),
        logged_identity(delete_step(s, j, DeleteVerdict::Unreachable)) == Some(i),
        logged_identity(delete_step(s, i, DeleteVerdict::Accepted)) == None::<Seq<char>>,
        logged_identity(invalidate_step(s)) == None::<Seq<char>>,
{
}

/// Two successful logins in a row, once serialized, leave exactly one
/// session: the later login's, whole — identity and timestamp both
/// from the later call (last install wins).
pub proof fn lemma_last_login_wins(
    s: StateView,
    a: Seq<char>,
    b: Seq<char>,
    token_a: Option<Seq<char>>,
    token_b: Option<Seq<char>>,
    at_a: u64,
    at_b: u64,
)
    ensures
        login_email_step(
            login_email_step(s, a, AuthVerdictView::Accepted { stored_token: token_a }, at_a),
            b,
            AuthVerdictView::Accepted { stored_token: token_b },
            at_b,
        ).session matches Some(sv) && sv.identity == b && sv.established_at == at_b,
{
}

} // verus!
