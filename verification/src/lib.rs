//! A client library for a remote ledger node: a verified connection
//! lifecycle manager around an HTTP JSON-RPC handle, the balance query
//! guarded by that lifecycle, and the unit-conversion policy for display.

pub mod connection;
pub mod errors;
pub mod interaction;
pub mod lifecycle;
pub mod transport;
pub mod units;
