//! A cache of repository checkouts for searching remote repositories.
//!
//! A repository reference is resolved to a canonical remote URL and a stable
//! identifier; the identifier names a checkout under a per-user cache root;
//! the age of that checkout and a configured time-to-live decide whether it
//! is reused or cloned afresh; the search tool is then run over it. This
//! crate holds the rules. Reading the disk, the clock and the network, and
//! running other programs, is left to the caller, which hands in what it
//! found and carries out what the rules ask for.

pub mod cache;
pub mod checkout;
pub mod error;
pub mod identifier;
pub mod resolver;
pub mod search;
