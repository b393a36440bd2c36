//! A content-registration and access-control ledger.
//!
//! An authenticated caller registers a piece of content under a derived
//! unique key; other identities can then be granted a time-ordered lease
//! that changes who may access that content. The ledger keeps two tables —
//! content records keyed by `(owner, content_key)` and access policies
//! keyed by `(subject, content_key)` — together with an event log and a
//! small counter used by the generic dispatchables.

pub mod keys;
pub mod pallet;
pub mod tables;
pub mod types;
