//! An off-chain execution engine for smart contracts.
//!
//! The engine reproduces what a contract observes when it calls its host:
//! balances, per-account storage, events, hashing, signature recovery, and the
//! call-flag and reentrancy bookkeeping around nested calls.

pub mod byte_map;
pub mod bytes;
pub mod chain_extension;
pub mod codec;
pub mod contracts;
pub mod database;
pub mod ecdsa;
pub mod error;
pub mod exec_context;
pub mod ext;
pub mod hashing;
pub mod laws;
pub mod test_api;
pub mod topics;
pub mod types;
