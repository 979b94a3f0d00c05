//! Lifecycle of the bundled command-line companion ("sidecar"): how it is
//! invoked, where a standalone copy is installed, and when that copy is
//! replaced by the bundled one.

pub mod command;
pub mod text;
pub mod version;
pub mod paths;
pub mod config;
pub mod install;
pub mod sync;
