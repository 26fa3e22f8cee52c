//! A minimal verified client for a remote key-value cache with per-key
//! expiry.
//!
//! The client is a two-state machine: `connect` is the only transition
//! into the connected state, `close_connection` the only one out of it,
//! and every other operation demands a live handle. The verified core
//! decides each operation and builds the exact request to transmit; the
//! surrounding program performs the network transmission and hands the
//! outcome back to `complete_set` / `complete_get`.

pub mod client;
pub mod errors;
pub mod fmt;
pub mod laws;
pub mod redis_api;
