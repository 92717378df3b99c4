//! Launching and supervising a browser process that runs on an isolated
//! profile.
//!
//! The library holds the decisions: which preferences a profile must carry
//! before the browser starts, which command line and environment the browser
//! is started with, and how a runner moves between idle, running and stopped.
//! Reading the profile's preference file, and spawning, killing and reaping
//! the operating-system process, are left to the caller, who reports each
//! outcome back.

pub mod command;
pub mod error;
pub mod profile;
pub mod runner;
