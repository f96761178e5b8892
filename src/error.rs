//! The closed set of failures used throughout the library.
use vstd::prelude::*;

verus! {

/// Errors that can occur during the daemon's lifecycle.
#[derive(Debug)]
pub enum DaemonError {
    /// `start` was called while the daemon was running.
    AlreadyRunning,
    /// `stop` was called while the daemon was not running.
    NotRunning,
    /// Any other failure, with a human-readable message.
    CustomError(String),
}

} // verus!
