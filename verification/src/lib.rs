//! An escrowed token-swap library.
//!
//! A maker deposits an amount of asset A into a custody vault and records the
//! amount of asset B wanted in exchange; a taker later pays that amount of
//! asset B to the maker and receives the vaulted asset A, after which the
//! vault and the escrow record are destroyed and their reserved balances are
//! returned to the maker. Every transition validates all of its inputs before
//! mutating anything, so a failing transition leaves every account unchanged.

pub mod account;
pub mod error;
pub mod escrow;
pub mod lifecycle;
pub mod transfer;
