//! The log verbosity that a configuration selects.
use vstd::prelude::*;
use vstd::string::StringExecFns;

verus! {

/// A log verbosity, from the least to the most detailed.
#[derive(Debug, Clone, Copy, PartialEq, Eq, Structural)]
pub enum LogLevel {
    Error,
    Warn,
    Info,
    Debug,
}

/// The verbosity named by `name`: "debug", "info", "warn" or "error",
/// matched exactly; any other name selects `Info`.
pub open spec fn level_named(name: Seq<char>) -> LogLevel {
    if name == "debug"@ {
        LogLevel::Debug
    } else if name == "warn"@ {
        LogLevel::Warn
    } else if name == "error"@ {
        LogLevel::Error
    } else {
        LogLevel::Info
    }
}

/// Parses a verbosity name; unrecognised names give `Info`.
pub fn level_from_name(name: &String) -> (r: LogLevel)
    ensures
        r == level_named(name@),
{
    if *name == String::from_str("debug") {
        LogLevel::Debug
    } else if *name == String::from_str("warn") {
        LogLevel::Warn
    } else if *name == String::from_str("error") {
        LogLevel::Error
    } else {
        // "info" and every unrecognised name
        LogLevel::Info
    }
}

/// Relies on log::set_max_level: sets the process-wide maximum verbosity of
/// the log facade to the filter of the same name.
#[verifier::external_body]
pub(crate) fn set_max_level(level: LogLevel) {
    log::set_max_level(
        match level {
            LogLevel::Error => log::LevelFilter::Error,
            LogLevel::Warn => log::LevelFilter::Warn,
            LogLevel::Info => log::LevelFilter::Info,
            LogLevel::Debug => log::LevelFilter::Debug,
        },
    );
}

} // verus!
