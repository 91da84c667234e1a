//! Core of a small multi-tenant message board: a message store with
//! language-filtered listing, in-place edits, deletion, and time-based
//! expiry, together with the pure policies (expiration table, admin key
//! check, backup configuration and pruning rules) that the surrounding
//! service applies.

pub mod auth;
pub mod backup;
pub mod clock;
pub mod handlers;
pub mod security_headers;
pub mod langs;
pub mod messages;
pub mod store;
pub mod strutil;
