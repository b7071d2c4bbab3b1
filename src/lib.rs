//! A per-owner collateral ledger: each owner holds one vault whose balance is
//! split into an available and a locked part, with lifetime counters of what
//! came in and went out. Every operation keeps `total == locked + available`
//! and either succeeds completely or leaves every record as it was.

pub mod error;
pub mod events;
pub mod instructions;
pub mod laws;
pub mod pubkey;
pub mod registry;
pub mod state;
