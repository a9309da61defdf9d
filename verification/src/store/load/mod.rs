//! Rebuilding domain projections from the durable ledger.
pub mod artifact;
pub mod binding;
pub mod delivery;
pub mod health;
pub mod laws;
pub mod loadout;
pub mod obligation;
