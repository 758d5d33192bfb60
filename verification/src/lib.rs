//! A small transactional ledger: an admin-controlled registry of tracked
//! assets and, for each tracked asset, the balances of its accounts.
//!
//! One command at a time is authorised, validated and applied against a
//! [`ledger::ContractState`]; a rejected command leaves the state as it was.

pub mod assoc;
pub mod auth;
pub mod laws;
pub mod ledger;
pub mod processor;
pub mod types;
