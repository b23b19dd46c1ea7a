//! A read-only query gateway over a ledger's persisted state.
//!
//! The library holds the rules that every request goes through before and
//! after the storage backend is consulted: how identifiers are normalised,
//! which page sizes are admitted, how backend outcomes become response
//! statuses, and how the network status summary is rebuilt and published.
//! Transport, routing and the storage backend itself are supplied by the
//! caller.

pub mod normalizer;
pub mod errors;
pub mod status;
pub mod updater;
pub mod tokens;
pub mod accounts;
pub mod handlers;
pub mod routes;
