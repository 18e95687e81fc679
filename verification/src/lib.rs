//! A verified account/session management core.
//!
//! The core authenticates a user against an external identity backend,
//! keeps at most one in-process session, persists an opaque stored secret
//! per account for silent re-login, and supports revocation (logout) and
//! account deletion.  Every network or disk interaction happens outside
//! the core: the embedding shell performs the call and hands its outcome
//! back as a plain verdict value, and the core's transition on that
//! verdict is what is specified and proved here.

pub mod account;
pub mod backend;
pub mod errors;
pub mod laws;
pub mod session;
pub mod state;
pub mod store;
