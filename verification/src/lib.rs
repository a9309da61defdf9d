//! The durable authority of a foreman-led orchestration daemon.
//!
//! The decisions the daemon and its store make are functions on plain values here: what an
//! operation appends to the event ledger and writes to its projections, what a stored row means,
//! whether the projections still agree with the ledger, and what the daemon says on its control
//! socket. Reading files, talking to SQLite and running the loop are the caller's.
pub mod daemon;
pub mod digest;
pub mod domain;
pub mod store;
pub mod text;
