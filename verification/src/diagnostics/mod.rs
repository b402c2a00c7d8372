//! Read-only probes of what a device reports about itself.
//!
//! Each probe names the next thing to read and is handed what came back, until
//! it finishes with a snapshot or with the failure that stopped it.

pub mod battery;
pub mod error;
pub mod firmware;
pub mod host_laws;
pub mod hosts;
pub mod probe_laws;
pub mod report;
pub mod table;
