//! Deterministic Ethereum wallet derivation: mnemonic, seed, hierarchical key,
//! address and the records that describe the finished wallet.

pub mod algorithm;
pub mod error;
pub mod hex;
pub mod invocation;
pub mod keys;
pub mod keystore;
pub mod mnemonic;
pub mod wallet;
