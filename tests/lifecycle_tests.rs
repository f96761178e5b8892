use std::cell::Cell;

use daemon_base::{Daemon, DaemonError, DaemonState};

fn failure(msg: &str) -> DaemonError {
    DaemonError::CustomError(msg.to_string())
}

#[test]
fn start_then_stop_returns_to_offline() {
    let mut daemon = Daemon::new();
    assert!(daemon.start(|| Ok(())).is_ok());
    assert_eq!(daemon.get_state(), DaemonState::Running);
    assert!(daemon.stop(|| Ok(())).is_ok());
    assert_eq!(daemon.get_state(), DaemonState::Offline);
}

#[test]
fn start_while_running_fails_without_calling_back() {
    let mut daemon = Daemon::new();
    daemon.start(|| Ok(())).unwrap();
    let calls = Cell::new(0u32);
    let result = daemon.start(|| {
        calls.set(calls.get() + 1);
        Ok(())
    });
    assert!(matches!(result, Err(DaemonError::AlreadyRunning)));
    assert_eq!(calls.get(), 0);
    assert_eq!(daemon.get_state(), DaemonState::Running);
}

#[test]
fn stop_while_offline_fails() {
    let mut daemon = Daemon::new();
    let result = daemon.stop(|| Ok(()));
    assert!(matches!(result, Err(DaemonError::NotRunning)));
    assert_eq!(daemon.get_state(), DaemonState::Offline);
}

#[test]
fn stop_while_errored_fails_and_keeps_errored() {
    let mut daemon = Daemon::new();
    let _ = daemon.start(|| Err(failure("boot")));
    let result = daemon.stop(|| Ok(()));
    assert!(matches!(result, Err(DaemonError::NotRunning)));
    assert_eq!(daemon.get_state(), DaemonState::Errored);
}

#[test]
fn failed_start_returns_the_callback_error() {
    let mut daemon = Daemon::new();
    let result = daemon.start(|| Err(failure("disk full")));
    match result {
        Err(DaemonError::CustomError(m)) => assert_eq!(m, "disk full"),
        other => panic!("unexpected result: {:?}", other),
    }
    assert_eq!(daemon.get_state(), DaemonState::Errored);
}

#[test]
fn failed_stop_moves_to_errored() {
    let mut daemon = Daemon::new();
    daemon.start(|| Ok(())).unwrap();
    let result = daemon.stop(|| Err(failure("stuck")));
    assert!(matches!(result, Err(DaemonError::CustomError(ref m)) if m == "stuck"));
    assert_eq!(daemon.get_state(), DaemonState::Errored);
}

#[test]
fn start_from_errored_succeeds() {
    let mut daemon = Daemon::new();
    let _ = daemon.start(|| Err(failure("first try")));
    assert_eq!(daemon.get_state(), DaemonState::Errored);
    assert!(daemon.start(|| Ok(())).is_ok());
    assert_eq!(daemon.get_state(), DaemonState::Running);
}

#[test]
fn restart_with_failing_logic_stops_at_errored() {
    let mut daemon = Daemon::new();
    daemon.start(|| Ok(())).unwrap();
    let calls = Cell::new(0u32);
    let result = daemon.restart(|| {
        calls.set(calls.get() + 1);
        Err(failure("cannot stop"))
    });
    assert!(matches!(result, Err(DaemonError::CustomError(ref m)) if m == "cannot stop"));
    assert_eq!(calls.get(), 1);
    assert_eq!(daemon.get_state(), DaemonState::Errored);
}

#[test]
fn restart_runs_logic_twice_and_ends_running() {
    let mut daemon = Daemon::new();
    daemon.start(|| Ok(())).unwrap();
    let calls = Cell::new(0u32);
    let result = daemon.restart(|| {
        calls.set(calls.get() + 1);
        Ok(())
    });
    assert!(result.is_ok());
    assert_eq!(calls.get(), 2);
    assert_eq!(daemon.get_state(), DaemonState::Running);
}

#[test]
fn restart_failing_on_second_run_ends_errored() {
    let mut daemon = Daemon::new();
    daemon.start(|| Ok(())).unwrap();
    let calls = Cell::new(0u32);
    let result = daemon.restart(|| {
        calls.set(calls.get() + 1);
        if calls.get() == 1 {
            Ok(())
        } else {
            Err(failure("cannot boot"))
        }
    });
    assert!(matches!(result, Err(DaemonError::CustomError(ref m)) if m == "cannot boot"));
    assert_eq!(calls.get(), 2);
    assert_eq!(daemon.get_state(), DaemonState::Errored);
}

#[test]
fn restart_while_offline_fails_without_calling_back() {
    let mut daemon = Daemon::new();
    let calls = Cell::new(0u32);
    let result = daemon.restart(|| {
        calls.set(calls.get() + 1);
        Ok(())
    });
    assert!(matches!(result, Err(DaemonError::NotRunning)));
    assert_eq!(calls.get(), 0);
    assert_eq!(daemon.get_state(), DaemonState::Offline);
}

#[test]
fn split_start_moves_through_booting() {
    let mut daemon = Daemon::new();
    assert!(daemon.begin_start().is_ok());
    assert_eq!(daemon.get_state(), DaemonState::Booting);
    assert!(daemon.finish_start(Ok(())).is_ok());
    assert_eq!(daemon.get_state(), DaemonState::Running);
    assert!(matches!(daemon.begin_start(), Err(DaemonError::AlreadyRunning)));
    assert_eq!(daemon.get_state(), DaemonState::Running);
}

#[test]
fn split_start_failure_is_returned_and_errors() {
    let mut daemon = Daemon::new();
    daemon.begin_start().unwrap();
    let result = daemon.finish_start(Err(failure("async boot")));
    assert!(matches!(result, Err(DaemonError::CustomError(ref m)) if m == "async boot"));
    assert_eq!(daemon.get_state(), DaemonState::Errored);
}

#[test]
fn split_stop_moves_through_closing() {
    let mut daemon = Daemon::new();
    assert!(matches!(daemon.begin_stop(), Err(DaemonError::NotRunning)));
    assert_eq!(daemon.get_state(), DaemonState::Offline);
    daemon.start(|| Ok(())).unwrap();
    assert!(daemon.begin_stop().is_ok());
    assert_eq!(daemon.get_state(), DaemonState::Closing);
    assert!(daemon.finish_stop(Ok(())).is_ok());
    assert_eq!(daemon.get_state(), DaemonState::Offline);
}

#[test]
fn split_stop_failure_is_returned_and_errors() {
    let mut daemon = Daemon::new();
    daemon.start(|| Ok(())).unwrap();
    daemon.begin_stop().unwrap();
    let result = daemon.finish_stop(Err(failure("async close")));
    assert!(matches!(result, Err(DaemonError::CustomError(ref m)) if m == "async close"));
    assert_eq!(daemon.get_state(), DaemonState::Errored);
}
