//! Wallet operations for Ergo: EIP-3 key derivation, building and signing
//! transactions, and reading and signing ErgoPay reduced transactions.

pub mod error;
pub mod text;
pub mod outside;
pub mod keys;
pub mod encoding;
pub mod inputs;
pub mod tx;
pub mod ergopay;
