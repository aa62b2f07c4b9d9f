//! Accounting core for tokenized real-world assets: asset registry, purchase
//! settlement with a platform fee, dividend pools and exactly-once claims,
//! and the byte layouts of the ledger records.
pub mod address;
pub mod asset;
pub mod codec;
pub mod dividend;
pub mod error;
pub mod fee;
pub mod instruction;
pub mod processor;
pub mod state;
