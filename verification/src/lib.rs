//! Supervisor for a bundled backend ("sidecar") process.
//!
//! The library decides everything about the backend's lifecycle that can be
//! decided on plain values: where the backend's configuration file lives,
//! which arguments the backend is launched with, what is logged when command
//! construction or spawning fails, and how the backend's output and
//! termination events become log lines.  The host process performs the
//! launching and the pipe reading and hands the outcomes back as values.

pub mod commands;
pub mod config;
pub mod log;
pub mod pump;
pub mod render;
pub mod supervisor;
