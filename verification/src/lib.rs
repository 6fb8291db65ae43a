//! Deployment orchestration engine: pushes versioned file sets ("packages")
//! from a control host to a fleet of remote machines, uploading only changed
//! files and running configured remote actions around each deployment.
//!
//! The crate holds the decision logic of the engine — change detection by
//! remote checksums, batching, the chunked-upload bookkeeping, and the
//! per-target multi-phase state machine — all of it verified. The surrounding
//! program performs the network and file I/O and feeds the results back in
//! as plain values.

pub mod actions;
pub mod checksum;
pub mod config;
pub mod coordinator;
pub mod constants;
pub mod digest;
pub mod packaging;
pub mod state_machine;
pub mod strutil;
pub mod ui_state;
pub mod upload;
