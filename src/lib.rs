//! A confidential financial assistant for a single account: a private
//! financial snapshot, a loan ledger, and the textual views over both.
pub mod confidential;
pub mod ledger;
pub mod manager;
pub mod records;
pub mod text;
