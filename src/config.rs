//! The configuration that a daemon is given.
use vstd::prelude::*;

verus! {

/// The configuration for a daemon, as read by the embedding application.
pub struct DaemonConfig {
    /// The log level: "debug", "info", "warn" or "error".
    pub log_level: String,
    /// Paths of the binaries or resources to load, in order.
    pub binary_paths: Vec<String>,
    /// Whether asynchronous execution is enabled.
    pub async_enabled: bool,
}

} // verus!
