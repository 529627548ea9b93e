//! An in-memory ledger harness: a key-value state view, write-set
//! application, dual-path block execution with cross-checking, block-time
//! progression and a deterministic trace recorder.

pub mod bytes;
pub mod state_key;
pub mod key_order;
pub mod identifier;
pub mod write_set;
pub mod data_store;
pub mod transaction;
pub mod trace;
pub mod encoding;
pub mod recorder;
pub mod collaborators;
pub mod executor;
pub mod progression;
pub mod invocation;
pub mod genesis;
pub mod golden;
pub mod resources;
pub mod accounts;
