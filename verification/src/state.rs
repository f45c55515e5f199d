//! The ledger records.

pub mod user;
pub mod vault;
