//! Verified core of a session-backed identity subsystem.
//!
//! Three components make up the library. The credential cascade decides, from
//! the outcome of each sign-in attempt, which credential scope to try next
//! when connecting to the backing store. The session codec turns a user's
//! record identifier into the string form kept in a server-side session and
//! back. The identity resolver is the per-request state machine that turns a
//! cached session value and identity-provider claims into a durable user
//! identity, telling its caller which external call to make next and folding
//! each call's result back into its state.
//!
//! The external collaborators themselves (the database client, the session
//! layer, the identity-provider middleware) perform I/O and stay outside the
//! library; they interact with it through plain values. What the resolver
//! asks of the backing store is modelled too: the store module states the
//! uniqueness constraint the user table keeps, and proves that concurrent
//! first-time logins leave at most one row per subject.

pub mod cascade;
pub mod claims;
pub mod ids;
pub mod resolver;
pub mod store;
