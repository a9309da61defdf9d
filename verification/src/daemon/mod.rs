//! The daemon around the store: its state root, its lock, its control socket, its reports.
pub mod artifacts;
pub mod doctor;
pub mod error;
pub mod incarnation;
pub mod ipc;
pub mod layout;
pub mod lock;
pub mod logging;
pub mod ports;
pub mod report;
pub mod report_laws;
pub mod start_laws;
pub mod startup;
pub mod worker;
