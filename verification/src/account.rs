//! The account lifecycle controller: the five operations the shell
//! invokes, orchestrating the credential store and the session manager.
//!
//! The backend call inside an operation is performed by the shell,
//! which hands the outcome back as a verdict; each operation's
//! `ensures` pins the new state to the matching transition of
//! [`crate::state`].  The shell serializes operations through one
//! exclusive lock, so each verified transition is atomic as seen by
//! any other operation.

use vstd::prelude::*;
use crate::backend::{AuthVerdict, DeleteVerdict, StoredVerdict};
use crate::errors::{AccountError, AuthError};
use crate::session::{Session, SessionManager, SessionView};
use crate::state::{
    delete_step, invalidate_step, logged_identity, login_email_step, stored_login_step, StateView,
};
use crate::store::{CredentialStore, StoredAccountRecord};

verus! {

/// The whole core: stored credentials plus the current session.
pub struct AccountCore {
    pub store: CredentialStore,
    pub session: SessionManager,
}

impl View for AccountCore {
    type V = StateView;

    open spec fn view(&self) -> StateView {
        StateView { store: self.store@, session: self.session@ }
    }
}

impl AccountCore {
    /// A fresh core: no stored credentials, logged out.
    pub fn new() -> (r: Self)
        ensures
            r@.store == Map::<Seq<char>, Seq<char>>::empty(),
            r@.session == None::<SessionView>,
    {
        AccountCore { store: CredentialStore::new(), session: SessionManager::new() }
    }

    /// Who is logged in; a pure read, never fails.
    pub fn logged_in_as(&self) -> (r: Option<String>)
        ensures
            match (r, logged_identity(self@)) {
                (Some(i), Some(gi)) => i@ == gi,
                (None, None) => true,
                _ => false,
            },
    {
        self.session.logged_in_as()
    }

    /// Decides an email/password login from the backend's verdict on
    /// the pair (the shell sent the pair; the plaintext password never
    /// enters the core).  On acceptance a session for `email` is
    /// installed, displacing any previous one, and a backend-issued
    /// stored-secret token, if any, is upserted into the store; on any
    /// failure nothing changes.
    pub fn login_email_pass(&mut self, email: String, verdict: AuthVerdict, now: u64) -> (r:
        Result<Session, AuthError>)
        ensures
            final(self)@ == login_email_step(old(self)@, email@, verdict@, now),
            (r is Ok) == (verdict@ is Accepted),
            r matches Ok(session) ==> session@ == (SessionView {
                identity: email@,
                established_at: now,
            }),
            verdict@ is Accepted ==> logged_identity(final(self)@) == Some(email@),
            verdict@ is Rejected ==> r == Err::<Session, AuthError>(AuthError::InvalidCredentials)
                && final(self)@ == old(self)@,
            verdict@ is Unreachable ==> r == Err::<Session, AuthError>(
                AuthError::BackendUnavailable,
            ) && final(self)@ == old(self)@,
    {
        match verdict {
            AuthVerdict::Accepted { stored_token } => {
                match stored_token {
                    Some(token) => {
                        self.store.put(email.clone(), StoredAccountRecord { secret: token });
                    },
                    None => {},
                }
                let session = Session { identity: email, established_at: now };
                let installed = session.clone();
                self.session.install(installed);
                Ok(session)
            },
            AuthVerdict::Rejected => Err(AuthError::InvalidCredentials),
            AuthVerdict::Unreachable => Err(AuthError::BackendUnavailable),
        }
    }

    /// First half of a stored-password login: fetches the stored secret
    /// that the shell is to send to the backend.  With no stored record
    /// it fails with `NoStoredCredential` — and since the secret to
    /// send only exists on success, no backend call happens then.
    pub fn login_stored_pass_begin(&self, identity: &String) -> (r: Result<String, AuthError>)
        ensures
            (r is Ok) == self@.store.contains_key(identity@),
            r matches Ok(secret) ==> secret@ == self@.store[identity@],
            !self@.store.contains_key(identity@) ==> r == Err::<String, AuthError>(
                AuthError::NoStoredCredential,
            ),
    {
        match self.store.get(identity) {
            Some(record) => Ok(record.secret),
            None => Err(AuthError::NoStoredCredential),
        }
    }

    /// Second half of a stored-password login: decides from the
    /// backend's verdict on the stored secret.  On acceptance a session
    /// for `identity` is installed; on rejection the stale record is
    /// purged (self-healing) and `StoredCredentialExpired` is returned;
    /// on unreachability nothing changes.
    pub fn login_stored_pass_finish(
        &mut self,
        identity: String,
        verdict: StoredVerdict,
        now: u64,
    ) -> (r: Result<Session, AuthError>)
        ensures
            final(self)@ == stored_login_step(old(self)@, identity@, verdict, now),
            (r is Ok) == (verdict is Accepted),
            r matches Ok(session) ==> session@ == (SessionView {
                identity: identity@,
                established_at: now,
            }),
            verdict is Rejected ==> r == Err::<Session, AuthError>(
                AuthError::StoredCredentialExpired,
            ) && !final(self)@.store.contains_key(identity@),
            verdict is Unreachable ==> r == Err::<Session, AuthError>(AuthError::BackendUnavailable)
                && final(self)@ == old(self)@,
    {
        match verdict {
            StoredVerdict::Accepted => {
                let session = Session { identity, established_at: now };
                let installed = session.clone();
                self.session.install(installed);
                Ok(session)
            },
            StoredVerdict::Rejected => {
                self.store.delete(&identity);
                Err(AuthError::StoredCredentialExpired)
            },
            StoredVerdict::Unreachable => Err(AuthError::BackendUnavailable),
        }
    }

    /// Logs out: clears the session, keeps stored credentials.
    /// Idempotent — invalidating while logged out is a no-op.
    pub fn invalidate_account(&mut self)
        ensures
            final(self)@ == invalidate_step(old(self)@),
            logged_identity(final(self)@) == None::<Seq<char>>,
            final(self)@.store == old(self)@.store,
    {
        self.session.invalidate();
    }

    /// Decides an account deletion from the backend's verdict.  Only
    /// after the backend deleted the account is local state touched:
    /// the stored record is removed and a session for that identity is
    /// cleared, atomically from the caller's view.  On refusal or
    /// unreachability nothing local changes, so credentials for an
    /// account that still exists are never purged.
    pub fn delete_account(&mut self, identity: &String, verdict: DeleteVerdict) -> (r: Result<
        (),
        AccountError,
    >)
        ensures
            final(self)@ == delete_step(old(self)@, identity@, verdict),
            (r is Ok) == (verdict is Accepted),
            verdict is Accepted ==> !final(self)@.store.contains_key(identity@) && logged_identity(
                final(self)@,
            ) != Some(identity@),
            verdict matches DeleteVerdict::Refused(code) ==> r == Err::<(), AccountError>(
                AccountError::BackendRefused(code),
            ) && final(self)@ == old(self)@,
            verdict is Unreachable ==> r == Err::<(), AccountError>(AccountError::BackendUnavailable)
                && final(self)@ == old(self)@,
    {
        match verdict {
            DeleteVerdict::Accepted => {
                let was_current = self.session.is_for(identity);
                self.store.delete(identity);
                if was_current {
                    self.session.invalidate();
                }
                Ok(())
            },
            DeleteVerdict::Refused(code) => Err(AccountError::BackendRefused(code)),
            DeleteVerdict::Unreachable => Err(AccountError::BackendUnavailable),
        }
    }
}

} // verus!
