//! Keeps a CPU scheduler's mode in step with the desktop power profile.
//!
//! The library holds the decisions: which profile a string names, which
//! scheduler invocation each profile maps to, how the control tool's output
//! is read, and how the daemon reacts to each profile-change notification.
//! The process around it performs the bus reads and runs the tools.

pub mod text;
pub mod profile;
pub mod mode_table;
pub mod applier;
pub mod reactor;
pub mod config_file;
