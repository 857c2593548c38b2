//! Supervision of a local backend process on behalf of a desktop shell.

pub mod command;
pub mod config;
pub mod error;
pub mod laws;
pub mod paths;
pub mod preflight;
pub mod sinks;
pub mod status;
pub mod supervisor;
pub mod text;
