//! The rules of the task dispatcher.
//!
//! A task runs either on a worker thread that the caller joins, or on a
//! single-threaded runtime made for that one call. Running it is left to the
//! embedding application; how the run ended decides what the dispatcher
//! returns, and that decision is made here.
use vstd::prelude::*;
use vstd::string::StringExecFns;

use crate::error::DaemonError;

verus! {

/// How a task is executed.
#[derive(Debug, Clone, Copy, PartialEq, Eq, Structural)]
pub enum ConcurrencyModel {
    /// On a new worker thread; the caller blocks until it has finished.
    MultiThreaded,
    /// On a single-threaded cooperative runtime made for the call.
    Async,
}

/// How the run of a dispatched task ended.
#[derive(Debug)]
pub enum TaskEnd {
    /// The task returned this result.
    Returned(Result<(), DaemonError>),
    /// The worker thread ended abnormally instead of returning.
    Panicked,
    /// The runtime for an asynchronous task could not be built; the
    /// message says why.
    RuntimeUnavailable(String),
}

/// `r` is a `CustomError` failure with message `msg`.
pub open spec fn is_failure_with(r: Result<(), DaemonError>, msg: Seq<char>) -> bool {
    match r {
        Err(DaemonError::CustomError(m)) => m@ == msg,
        _ => false,
    }
}

/// What the dispatcher returns once a task's run has ended as `end`. A
/// failure that the task itself returned is swallowed (the caller only logs
/// it): the dispatcher succeeds. A panicked worker and a runtime that could
/// not be built are failures of the dispatcher.
pub fn task_result(end: TaskEnd) -> (r: Result<(), DaemonError>)
    ensures
        end is Returned ==> r is Ok,
        end is Panicked ==> is_failure_with(r, "Thread panicked"@),
        end is RuntimeUnavailable ==> is_failure_with(
            r,
            "Failed to create runtime: "@ + end->RuntimeUnavailable_0@,
        ),
{
    match end {
        TaskEnd::Returned(_) => Ok(()),
        TaskEnd::Panicked => Err(DaemonError::CustomError(String::from_str("Thread panicked"))),
        TaskEnd::RuntimeUnavailable(why) => Err(
            DaemonError::CustomError(
                String::from_str("Failed to create runtime: ").concat(why.as_str()),
            ),
        ),
    }
}

} // verus!
