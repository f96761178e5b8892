//! The lifecycle controller: the daemon's state machine and its start, stop
//! and restart operations.
//!
//! Every operation that changes the state takes `&mut self`: the exclusive
//! borrow is the guard that serialises transitions. Callers that share one
//! daemon between threads hold it behind a lock (`Arc<Mutex<Daemon>>`) and keep
//! that lock for the whole call, callback included, so a concurrent reader of
//! the state waits until the transition has settled. A callback must not try
//! to take that same lock again to start or stop the daemon it runs under:
//! that call would wait for itself forever.
use vstd::prelude::*;

use crate::binary::{binaries_from, lemma_binaries_from, pass_outcome, Binary, BinaryManager};
use crate::config::DaemonConfig;
use crate::error::DaemonError;
use crate::logging::{level_from_name, level_named, set_max_level, LogLevel};

verus! {

/// The state of the daemon.
#[derive(Debug, Clone, Copy, PartialEq, Eq, Structural)]
pub enum DaemonState {
    Offline,
    Booting,
    /// Declared for compatibility; no transition currently enters it.
    Loading,
    Running,
    /// Declared for compatibility; no transition currently enters it.
    Restarting,
    Closing,
    Errored,
}

/// A state in which the daemon rests between operations: the transient
/// states (`Booting`, `Closing`) are only ever held while a callback runs.
pub open spec fn is_settled(s: DaemonState) -> bool {
    s is Offline || s is Running || s is Errored
}

/// The state after a callback of a transition has returned `outcome`:
/// `on_ok` on success, `Errored` on failure.
pub open spec fn after_callback(outcome: Result<(), DaemonError>, on_ok: DaemonState) -> DaemonState {
    match outcome {
        Ok(_) => on_ok,
        Err(_) => DaemonState::Errored,
    }
}

/// The state after `start` from `s`, whose callback (if it ran) gave `outcome`.
pub open spec fn start_state(s: DaemonState, outcome: Result<(), DaemonError>) -> DaemonState {
    if s is Running {
        s
    } else {
        after_callback(outcome, DaemonState::Running)
    }
}

/// The state after `stop` from `s`, whose callback (if it ran) gave `outcome`.
pub open spec fn stop_state(s: DaemonState, outcome: Result<(), DaemonError>) -> DaemonState {
    if s is Running {
        after_callback(outcome, DaemonState::Offline)
    } else {
        s
    }
}

/// The state reached from `s` by running `ops` in order. Each operation is
/// `(true, o)` for a `start` or `(false, o)` for a `stop` whose callback, if
/// it ran, gave `o`; a restart is a stop followed by a start.
pub open spec fn replay(s: DaemonState, ops: Seq<(bool, Result<(), DaemonError>)>) -> DaemonState
    decreases ops.len(),
{
    if ops.len() == 0 {
        s
    } else {
        let before = replay(s, ops.drop_last());
        let (is_start, outcome) = ops.last();
        if is_start {
            start_state(before, outcome)
        } else {
            stop_state(before, outcome)
        }
    }
}

/// Whatever sequence of operations runs on a daemon from its creation, the
/// state it rests in afterwards is one of `Offline`, `Running` and
/// `Errored`: no reader ever sees a transition half done.
pub proof fn lemma_replay_settles(ops: Seq<(bool, Result<(), DaemonError>)>)
    ensures
        is_settled(replay(DaemonState::Offline, ops)),
    decreases ops.len(),
{
    if ops.len() > 0 {
        lemma_replay_settles(ops.drop_last());
    }
}

/// `held` is a list of binaries named by `paths`, one per path, in order.
pub open spec fn held_paths_match(held: Option<Seq<Binary>>, paths: Seq<String>) -> bool {
    match held {
        Some(bins) => bins.len() == paths.len() && forall|i: int|
            0 <= i < paths.len() ==> (#[trigger] bins[i])@ == paths[i]@,
        None => false,
    }
}

/// The daemon: its current state, and the resources loaded and the log
/// verbosity applied by `load_config`.
pub struct Daemon {
    state: DaemonState,
    binary_manager: Option<BinaryManager>,
    log_level: Option<LogLevel>,
}

impl View for Daemon {
    type V = DaemonState;

    closed spec fn view(&self) -> DaemonState {
        self.state
    }
}

/// A copy of `paths`, string for string.
fn copy_paths(paths: &Vec<String>) -> (r: Vec<String>)
    ensures
        r@ == paths@,
{
    let mut out: Vec<String> = Vec::new();
    let mut i: usize = 0;
    while i < paths.len()
        invariant
            0 <= i <= paths.len(),
            out@ == paths@.subrange(0, i as int),
        decreases paths.len() - i,
    {
        out.push(paths[i].clone());
        i = i + 1;
    }
    assert(out@ =~= paths@);
    out
}

impl Daemon {
    /// The binaries loaded by the last successful `load_config`, if any.
    pub closed spec fn resources(&self) -> Option<Seq<Binary>> {
        match self.binary_manager {
            Some(m) => Some(m.entries()),
            None => None,
        }
    }

    /// The log verbosity applied by the last `load_config`, if any.
    pub closed spec fn applied_level(&self) -> Option<LogLevel> {
        self.log_level
    }

    /// Creates a daemon in the `Offline` state with no resources loaded and
    /// no log verbosity applied.
    pub fn new() -> (r: Self)
        ensures
            r@ == DaemonState::Offline,
            r.resources() == None::<Seq<Binary>>,
            r.applied_level() == None::<LogLevel>,
    {
        Daemon { state: DaemonState::Offline, binary_manager: None, log_level: None }
    }

    /// Returns the current state.
    pub fn get_state(&self) -> (r: DaemonState)
        ensures
            r == self@,
    {
        self.state
    }

    /// Returns the log verbosity applied by the last `load_config`, if any.
    pub fn log_level(&self) -> (r: Option<LogLevel>)
        ensures
            r == self.applied_level(),
    {
        self.log_level
    }

    /// The first half of a start whose logic runs elsewhere (for instance
    /// awaited by an asynchronous caller that holds the daemon throughout):
    /// fails with `AlreadyRunning` when the daemon is running, and otherwise
    /// moves it to `Booting`.
    pub fn begin_start(&mut self) -> (r: Result<(), DaemonError>)
        ensures
            old(self)@ is Running ==> r == Err::<(), DaemonError>(DaemonError::AlreadyRunning)
                && final(self)@ == old(self)@,
            !(old(self)@ is Running) ==> r is Ok && final(self)@ == DaemonState::Booting,
            final(self).resources() == old(self).resources(),
            final(self).applied_level() == old(self).applied_level(),
    {
        if self.state == DaemonState::Running {
            return Err(DaemonError::AlreadyRunning);
        }
        self.state = DaemonState::Booting;
        Ok(())
    }

    /// The second half of a start: given what the start logic returned,
    /// moves a booting daemon to `Running` on success or `Errored` on
    /// failure, and returns that outcome as is.
    pub fn finish_start(&mut self, outcome: Result<(), DaemonError>) -> (r: Result<(), DaemonError>)
        requires
            old(self)@ == DaemonState::Booting,
        ensures
            r == outcome,
            final(self)@ == after_callback(outcome, DaemonState::Running),
            final(self).resources() == old(self).resources(),
            final(self).applied_level() == old(self).applied_level(),
    {
        if outcome.is_ok() {
            self.state = DaemonState::Running;
        } else {
            self.state = DaemonState::Errored;
        }
        outcome
    }

    /// The first half of a stop whose logic runs elsewhere: fails with
    /// `NotRunning` unless the daemon is running, and otherwise moves it to
    /// `Closing`.
    pub fn begin_stop(&mut self) -> (r: Result<(), DaemonError>)
        ensures
            !(old(self)@ is Running) ==> r == Err::<(), DaemonError>(DaemonError::NotRunning)
                && final(self)@ == old(self)@,
            old(self)@ is Running ==> r is Ok && final(self)@ == DaemonState::Closing,
            final(self).resources() == old(self).resources(),
            final(self).applied_level() == old(self).applied_level(),
    {
        if self.state != DaemonState::Running {
            return Err(DaemonError::NotRunning);
        }
        self.state = DaemonState::Closing;
        Ok(())
    }

    /// The second half of a stop: given what the stop logic returned, moves
    /// a closing daemon to `Offline` on success or `Errored` on failure, and
    /// returns that outcome as is.
    pub fn finish_stop(&mut self, outcome: Result<(), DaemonError>) -> (r: Result<(), DaemonError>)
        requires
            old(self)@ == DaemonState::Closing,
        ensures
            r == outcome,
            final(self)@ == after_callback(outcome, DaemonState::Offline),
            final(self).resources() == old(self).resources(),
            final(self).applied_level() == old(self).applied_level(),
    {
        if outcome.is_ok() {
            self.state = DaemonState::Offline;
        } else {
            self.state = DaemonState::Errored;
        }
        outcome
    }

    /// Starts the daemon: fails with `AlreadyRunning` when it is running;
    /// otherwise passes through `Booting`, runs `on_start`, and ends in
    /// `Running` if it succeeded or `Errored` with its error returned as is.
    pub fn start<F: FnOnce() -> Result<(), DaemonError>>(&mut self, on_start: F) -> (r: Result<
        (),
        DaemonError,
    >)
        requires
            on_start.requires(()),
        ensures
            old(self)@ is Running ==> r == Err::<(), DaemonError>(DaemonError::AlreadyRunning),
            !(old(self)@ is Running) ==> on_start.ensures((), r),
            final(self)@ == start_state(old(self)@, r),
            final(self).resources() == old(self).resources(),
            final(self).applied_level() == old(self).applied_level(),
    {
        let begun = self.begin_start();
        if begun.is_err() {
            return begun;
        }
        let outcome = on_start();
        self.finish_start(outcome)
    }

    /// Stops the daemon: fails with `NotRunning` unless it is running;
    /// otherwise passes through `Closing`, runs `on_stop`, and ends in
    /// `Offline` if it succeeded or `Errored` with its error returned as is.
    pub fn stop<F: FnOnce() -> Result<(), DaemonError>>(&mut self, on_stop: F) -> (r: Result<
        (),
        DaemonError,
    >)
        requires
            on_stop.requires(()),
        ensures
            !(old(self)@ is Running) ==> r == Err::<(), DaemonError>(DaemonError::NotRunning),
            old(self)@ is Running ==> on_stop.ensures((), r),
            final(self)@ == stop_state(old(self)@, r),
            final(self).resources() == old(self).resources(),
            final(self).applied_level() == old(self).applied_level(),
    {
        let begun = self.begin_stop();
        if begun.is_err() {
            return begun;
        }
        let outcome = on_stop();
        self.finish_stop(outcome)
    }

    /// Applies `config`: sets the process-wide log verbosity it names, then
    /// loads its binaries in order with `load`. The first load failure is
    /// returned and leaves the daemon's resources as they were; on success the
    /// daemon holds the new binaries. The lifecycle state does not change.
    pub fn load_config<F: Fn(&Binary) -> Result<(), DaemonError>>(
        &mut self,
        config: &DaemonConfig,
        load: F,
    ) -> (r: Result<(), DaemonError>)
        requires
            forall|b: &Binary| load.requires((b,)),
        ensures
            final(self)@ == old(self)@,
            pass_outcome(binaries_from(config.binary_paths@), load, r),
            r is Ok ==> final(self).resources() == Some(binaries_from(config.binary_paths@)),
            r is Ok ==> held_paths_match(final(self).resources(), config.binary_paths@),
            r is Err ==> final(self).resources() == old(self).resources(),
            final(self).applied_level() == Some(level_named(config.log_level@)),
    {
        proof {
            lemma_binaries_from(config.binary_paths@);
        }
        let level = level_from_name(&config.log_level);
        set_max_level(level);
        self.log_level = Some(level);
        let binary_manager = BinaryManager::new(copy_paths(&config.binary_paths));
        let outcome = binary_manager.load_all(load);
        if outcome.is_ok() {
            self.binary_manager = Some(binary_manager);
        }
        outcome
    }

    /// Restarts the daemon: `stop` with `on_restart`, then, only if that
    /// succeeded, `start` with the same logic. The logic must be safe to run
    /// twice.
    pub fn restart<F: Fn() -> Result<(), DaemonError>>(&mut self, on_restart: F) -> (r: Result<
        (),
        DaemonError,
    >)
        requires
            on_restart.requires(()),
        ensures
            !(old(self)@ is Running) ==> r == Err::<(), DaemonError>(DaemonError::NotRunning)
                && final(self)@ == old(self)@,
            old(self)@ is Running ==> exists|first: Result<(), DaemonError>|
                on_restart.ensures((), first) && match first {
                    Err(_) => r == first && final(self)@ == DaemonState::Errored,
                    Ok(_) => on_restart.ensures((), r) && final(self)@ == start_state(
                        DaemonState::Offline,
                        r,
                    ),
                },
            final(self).resources() == old(self).resources(),
            final(self).applied_level() == old(self).applied_level(),
    {
        let shut_down = || -> (o: Result<(), DaemonError>)
            requires
                on_restart.requires(()),
            ensures
                on_restart.ensures((), o),
            {
                on_restart()
            };
        let first = self.stop(shut_down);
        if first.is_err() {
            return first;
        }
        let ghost stopped = first;
        let boot = || -> (o: Result<(), DaemonError>)
            requires
                on_restart.requires(()),
            ensures
                on_restart.ensures((), o),
            {
                on_restart()
            };
        let second = self.start(boot);
        assert(on_restart.ensures((), stopped));
        second
    }
}

} // verus!
