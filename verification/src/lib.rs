//! TrustLink's storage layout, identifiers and event catalogue.
//!
//! The library holds the logic of the contract's storage helpers and event
//! builders over plain values: what a helper decides from the entries it has
//! read, and which entries or which event it hands back to be written or
//! published. Reading and writing ledger entries and publishing events happen
//! in the host environment, outside this crate.

pub mod types;
pub mod storage;
pub mod events;
pub mod ids;
pub mod laws;
