//! An in-memory ledger together with a batch transaction simulator.
//!
//! The crate models a small developer tool for a blockchain: a ledger store
//! of accounts, blocks and receipts; a recorder that derives which abstract
//! resources a transaction touches; an execution engine that simulates a
//! batch of transactions sequentially or across a worker pool; and an
//! analyzer that reports resources touched by more than one transaction of
//! the same batch.

pub mod client;
pub mod clock;
pub mod conflicts;
pub mod node;
pub mod numfmt;
pub mod policy;
pub mod rpc;
pub mod simulator;
pub mod state;
pub mod types;
