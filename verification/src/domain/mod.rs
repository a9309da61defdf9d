//! The domain values the store and the daemon pass around.
pub mod artifact;
pub mod binding;
pub mod claim;
pub mod conflict;
pub mod delivery;
pub mod effect;
pub mod fence;
pub mod health;
pub mod id;
pub mod lease;
pub mod mutation;
pub mod obligation;
pub mod session;
