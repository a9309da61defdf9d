//! The durable store: what its rows mean, and what its operations write.
pub mod codec;
pub mod error;
pub mod event;
pub mod event_kind;
pub mod gate_laws;
pub mod grammar;
pub mod inspect;
pub mod labels;
pub mod load;
pub mod meta;
pub mod migrate;
pub mod open;
pub mod ops;
pub mod replay;
pub mod safe_metadata;
pub mod startup;
pub mod tx;
pub mod verified;
