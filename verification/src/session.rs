//! The session manager: the process-wide record of who is logged in.
//!
//! At most one session exists per process; a new login for a different
//! identity displaces the old session (deliberate single-session
//! policy).  Absence of a session is the valid "logged out" state.

use vstd::prelude::*;

verus! {

/// In-memory proof that `identity` is currently logged in, carrying the
/// moment (shell-supplied timestamp) at which it was established.
#[derive(Debug)]
pub struct Session {
    pub identity: String,
    pub established_at: u64,
}

/// Ghost form of [`Session`].
pub struct SessionView {
    pub identity: Seq<char>,
    pub established_at: u64,
}

impl View for Session {
    type V = SessionView;

    open spec fn view(&self) -> SessionView {
        SessionView { identity: self.identity@, established_at: self.established_at }
    }
}

impl Clone for Session {
    fn clone(&self) -> (r: Self)
        ensures
            r@ == self@,
    {
        Session { identity: self.identity.clone(), established_at: self.established_at }
    }
}

/// Holder of the current session, if any.
pub struct SessionManager {
    current: Option<Session>,
}

impl View for SessionManager {
    type V = Option<SessionView>;

    closed spec fn view(&self) -> Option<SessionView> {
        match self.current {
            Some(ref s) => Some(s@),
            None => None,
        }
    }
}

impl SessionManager {
    /// Starts logged out.
    pub fn new() -> (r: Self)
        ensures
            r@ == None::<SessionView>,
    {
        SessionManager { current: None }
    }

    /// Who is logged in; a pure read, never fails.
    pub fn logged_in_as(&self) -> (r: Option<String>)
        ensures
            match (r, self@) {
                (Some(i), Some(sv)) => i@ == sv.identity,
                (None, None) => true,
                _ => false,
            },
    {
        match &self.current {
            Some(s) => Some(s.identity.clone()),
            None => None,
        }
    }

    /// True exactly when the current session is for `identity`.
    pub fn is_for(&self, identity: &String) -> (r: bool)
        ensures
            r == (self@ matches Some(sv) && sv.identity == identity@),
    {
        match &self.current {
            Some(s) => s.identity == *identity,
            None => false,
        }
    }

    /// Sets the current session, replacing any previous one.
    pub fn install(&mut self, session: Session)
        ensures
            final(self)@ == Some(session@),
    {
        self.current = Some(session);
    }

    /// Clears the current session unconditionally; a no-op when already
    /// logged out.
    pub fn invalidate(&mut self)
        ensures
            final(self)@ == None::<SessionView>,
    {
        self.current = None;
    }
}

} // verus!
