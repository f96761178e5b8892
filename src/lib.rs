//! A small library for running a background service through a well-defined
//! lifecycle: offline, booting, running, closing, plus error and restart paths.
//!
//! The lifecycle rules, the sequential resource passes and the rules by which a
//! dispatched task's end becomes a result are verified here; spawning threads,
//! starting processes and reading files are left to the embedding application.
use vstd::prelude::*;

pub mod binary;
pub mod concurrency;
pub mod config;
pub mod lifecycle;
pub mod error;
pub mod logging;

verus! {

pub use crate::config::DaemonConfig;
pub use crate::lifecycle::{Daemon, DaemonState};
pub use crate::error::DaemonError;

} // verus!
