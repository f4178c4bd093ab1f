//! A single-process ledger node, verified with Verus.
//!
//! Clients submit account and transfer requests; accepted operations wait in
//! a pending buffer until the block producer cuts them into the next block of
//! the confirmed, append-only block sequence. Balances are read from both.

pub mod client;
pub mod commands;
pub mod history;
pub mod model;
pub mod producer;
pub mod server;
pub mod store;
pub mod traits;
pub mod types;
pub mod utilities;
