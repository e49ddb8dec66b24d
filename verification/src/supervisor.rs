//! The supervisor: a verified state machine over the lifecycle of one child
//! server process.
//!
//! The embedding shell owns the operating-system side — it spawns the child,
//! probes the configured port, sleeps between probes, and terminates the
//! child. After each such step it reports the outcome here; the supervisor
//! decides the resulting lifecycle state and the next action. Every
//! transition is stated by a `spec` function and every method is proved to
//! follow it, so the shell's loop around this machine cannot, for instance,
//! return an address before the backend can accept connections.

use vstd::prelude::*;

use crate::config::SupervisorConfig;
use crate::state::ReadinessState;
use crate::state::SupervisorError;

verus! {

/// What the shell observed when it tried to spawn the child.
#[derive(Clone, Copy, Debug, PartialEq, Eq)]
pub enum SpawnOutcome {
    /// The operating system created the process.
    Spawned,
    /// The operating system refused to create the process.
    SpawnFailed,
}

/// What one readiness probe of the configured `host:port` observed.
#[derive(Clone, Copy, Debug, PartialEq, Eq)]
pub enum ProbeOutcome {
    /// A connection was accepted (or a health request answered): the backend
    /// is serving.
    Accepted,
    /// The port is not accepting connections yet, and the child is still
    /// running.
    NotAccepting,
    /// The child process exited with this code before the probe succeeded.
    ChildExited { code: i32 },
}

/// What the shell's wait loop must do after reporting one probe.
#[derive(Clone, Copy, Debug, PartialEq, Eq)]
pub enum WaitDecision {
    /// The wait is over; this is the result `awaitReady` returns.
    Complete { result: Result<(), SupervisorError> },
    /// Sleep this long, probe again, and report the outcome again.
    RetryAfterDelay { delay_ms: u64 },
}

/// What the shell must do to the child when the supervisor is stopped.
#[derive(Clone, Copy, Debug, PartialEq, Eq)]
pub enum StopAction {
    /// A child may be running: request graceful termination, wait at most
    /// this grace period for it to exit, then kill it forcibly.
    TerminateChild { grace_period_ms: u64 },
    /// No child can be running; nothing to terminate.
    NoChild,
}

/// The state after a spawn attempt is reported in state `s`.
pub open spec fn start_step(s: ReadinessState, outcome: SpawnOutcome) -> ReadinessState {
    match outcome {
        SpawnOutcome::Spawned => ReadinessState::Starting,
        SpawnOutcome::SpawnFailed => ReadinessState::Failed {
            error: SupervisorError::SpawnError,
        },
    }
}

/// The state after one readiness probe is reported in state `s`, `elapsed_ms`
/// into a wait bounded by `timeout_ms`.
///
/// A probe decides only while the supervisor is `Starting`. An exit of the
/// child always wins over the timeout: a child that died is reported as
/// `EarlyExit`, never as `ReadinessTimeout`.
pub open spec fn wait_step(
    s: ReadinessState,
    timeout_ms: u64,
    elapsed_ms: u64,
    probe: ProbeOutcome,
) -> ReadinessState {
    if s is Starting {
        match probe {
            ProbeOutcome::Accepted => ReadinessState::Ready,
            ProbeOutcome::ChildExited { code } => ReadinessState::Failed {
                error: SupervisorError::EarlyExit { code },
            },
            ProbeOutcome::NotAccepting => if elapsed_ms >= timeout_ms {
                ReadinessState::Failed {
                    error: SupervisorError::ReadinessTimeout { elapsed_ms },
                }
            } else {
                ReadinessState::Starting
            },
        }
    } else {
        s
    }
}

/// The decision handed back to the wait loop for the same probe report.
///
/// While the wait goes on, the delay never runs past the deadline: it is the
/// poll interval, clipped to the time still left.
pub open spec fn wait_choice(
    s: ReadinessState,
    timeout_ms: u64,
    poll_interval_ms: u64,
    elapsed_ms: u64,
    probe: ProbeOutcome,
) -> WaitDecision {
    match wait_step(s, timeout_ms, elapsed_ms, probe) {
        ReadinessState::Ready => WaitDecision::Complete { result: Ok(()) },
        ReadinessState::Failed { error } => WaitDecision::Complete { result: Err(error) },
        _ => WaitDecision::RetryAfterDelay {
            delay_ms: if poll_interval_ms <= (timeout_ms - elapsed_ms) as u64 {
                poll_interval_ms
            } else {
                (timeout_ms - elapsed_ms) as u64
            },
        },
    }
}

/// The state after `stop`: always `Stopped`, from any state.
pub open spec fn stop_step(s: ReadinessState) -> ReadinessState {
    ReadinessState::Stopped
}

/// What `stop` asks of the shell: terminate the child exactly when one may be
/// running, that is, when the supervisor was `Starting` or `Ready`.
pub open spec fn stop_child_action(s: ReadinessState, grace_period_ms: u64) -> StopAction {
    if s is Starting || s is Ready {
        StopAction::TerminateChild { grace_period_ms }
    } else {
        StopAction::NoChild
    }
}

/// The state after the shell reports an unexpected exit of the child with
/// `code`: a running child's death is recorded as `EarlyExit`, any other
/// state is left as it is.
pub open spec fn exit_step(s: ReadinessState, code: i32) -> ReadinessState {
    if s is Starting || s is Ready {
        ReadinessState::Failed { error: SupervisorError::EarlyExit { code } }
    } else {
        s
    }
}

/// Owns the lifecycle of exactly one child server process per instance.
///
/// The configuration never changes after construction; the state changes only
/// through the methods below, each along its `spec`-level transition.
#[derive(Debug)]
pub struct ProcessSupervisor {
    /// The configuration this supervisor was created with.
    pub config: SupervisorConfig,
    /// The current lifecycle state of the supervised child.
    pub state: ReadinessState,
}

impl ProcessSupervisor {
    /// A supervisor over a valid configuration that was not yet started.
    pub open spec fn wf(self) -> bool {
        self.config.wf()
    }

    /// Creates a supervisor for `config`; nothing is spawned yet.
    pub fn new(config: SupervisorConfig) -> (s: Self)
        requires
            config.wf(),
        ensures
            s.wf(),
            s.config == config,
            s.state == ReadinessState::NotStarted,
    {
        ProcessSupervisor { config, state: ReadinessState::NotStarted }
    }

    /// Non-blocking snapshot of the lifecycle state, safe for any caller.
    pub fn current_state(&self) -> (s: ReadinessState)
        ensures
            s == self.state,
    {
        self.state
    }

    /// Records the outcome of the one spawn attempt.
    ///
    /// The shell spawns the child (detached, output redirected away) and
    /// reports whether the operating system created the process. Success
    /// moves the supervisor to `Starting`; refusal is surfaced as
    /// `SpawnError`, never swallowed.
    pub fn start(&mut self, outcome: SpawnOutcome) -> (r: Result<(), SupervisorError>)
        requires
            old(self).state is NotStarted,
        ensures
            final(self).config == old(self).config,
            final(self).state == start_step(old(self).state, outcome),
            outcome is Spawned ==> r is Ok && final(self).state is Starting,
            outcome is SpawnFailed ==> r == Result::<(), SupervisorError>::Err(
                SupervisorError::SpawnError,
            ),
    {
        match outcome {
            SpawnOutcome::Spawned => {
                self.state = ReadinessState::Starting;
                Ok(())
            },
            SpawnOutcome::SpawnFailed => {
                self.state = ReadinessState::Failed { error: SupervisorError::SpawnError };
                Err(SupervisorError::SpawnError)
            },
        }
    }

    /// Advances the wait for readiness by one reported probe.
    ///
    /// The shell's `awaitReady` loop probes `host:port`, reports the outcome
    /// together with the total elapsed wait, and obeys the decision: either
    /// the wait is complete — the state is then `Ready` exactly when the
    /// result is success, and `Failed` with the same error otherwise — or it
    /// sleeps the returned delay and probes again, the state still
    /// `Starting`. A wait that is already decided (state `Ready` or
    /// `Failed`) completes at once with that verdict.
    pub fn poll_ready(&mut self, elapsed_ms: u64, probe: ProbeOutcome) -> (d: WaitDecision)
        requires
            old(self).state is Starting || old(self).state is Ready || old(self).state is Failed,
        ensures
            final(self).config == old(self).config,
            final(self).state == wait_step(
                old(self).state,
                old(self).config.timeout_ms,
                elapsed_ms,
                probe,
            ),
            d == wait_choice(
                old(self).state,
                old(self).config.timeout_ms,
                old(self).config.poll_interval_ms,
                elapsed_ms,
                probe,
            ),
            d is RetryAfterDelay ==> final(self).state is Starting && elapsed_ms
                < old(self).config.timeout_ms,
            d matches WaitDecision::Complete { result } ==> (result is Ok <==> final(self).state is Ready),
    {
        let timeout_ms: u64 = self.config.timeout_ms;
        match self.state {
            ReadinessState::Ready => WaitDecision::Complete { result: Ok(()) },
            ReadinessState::Failed { error } => WaitDecision::Complete { result: Err(error) },
            _ => {
                match probe {
                    ProbeOutcome::Accepted => {
                        self.state = ReadinessState::Ready;
                        WaitDecision::Complete { result: Ok(()) }
                    },
                    ProbeOutcome::ChildExited { code } => {
                        self.state = ReadinessState::Failed {
                            error: SupervisorError::EarlyExit { code },
                        };
                        WaitDecision::Complete {
                            result: Err(SupervisorError::EarlyExit { code }),
                        }
                    },
                    ProbeOutcome::NotAccepting => {
                        if elapsed_ms >= timeout_ms {
                            self.state = ReadinessState::Failed {
                                error: SupervisorError::ReadinessTimeout { elapsed_ms },
                            };
                            WaitDecision::Complete {
                                result: Err(SupervisorError::ReadinessTimeout { elapsed_ms }),
                            }
                        } else {
                            let left: u64 = timeout_ms - elapsed_ms;
                            let delay_ms: u64 = if self.config.poll_interval_ms <= left {
                                self.config.poll_interval_ms
                            } else {
                                left
                            };
                            WaitDecision::RetryAfterDelay { delay_ms }
                        }
                    },
                }
            },
        }
    }

    /// Stops the supervisor: the state becomes `Stopped` from any state, and
    /// the returned action tells the shell whether a child may be running and
    /// must be terminated (gracefully, then forcibly after the grace period).
    ///
    /// Idempotent: stopping an already-stopped or never-started supervisor
    /// asks for nothing and is not an error.
    pub fn stop(&mut self) -> (a: StopAction)
        ensures
            final(self).config == old(self).config,
            final(self).state == stop_step(old(self).state),
            final(self).state is Stopped,
            a == stop_child_action(old(self).state, old(self).config.grace_period_ms),
    {
        let a = if matches!(self.state, ReadinessState::Starting | ReadinessState::Ready) {
            StopAction::TerminateChild { grace_period_ms: self.config.grace_period_ms }
        } else {
            StopAction::NoChild
        };
        self.state = ReadinessState::Stopped;
        a
    }

    /// Records an unexpected exit of the child, observed outside a wait.
    ///
    /// A child that dies mid-life moves the supervisor to `Failed` with
    /// `EarlyExit`, to be reported on the next state query; in any other
    /// state the report changes nothing.
    pub fn record_child_exit(&mut self, code: i32)
        ensures
            final(self).config == old(self).config,
            final(self).state == exit_step(old(self).state, code),
    {
        if matches!(self.state, ReadinessState::Starting | ReadinessState::Ready) {
            self.state = ReadinessState::Failed { error: SupervisorError::EarlyExit { code } };
        }
    }
}

/// The edges the lifecycle may follow: staying put; the monotonic progress
/// `NotStarted` to `Starting` to `Ready`; entering `Failed` from
/// `NotStarted` (a refused spawn), from `Starting` (timeout or early exit),
/// or from `Ready` (an unexpected exit); and entering `Stopped` from
/// anywhere on shutdown. `Stopped` is never left.
pub open spec fn lifecycle_edge(s: ReadinessState, s2: ReadinessState) -> bool {
    ||| s2 == s
    ||| (s is NotStarted && s2 is Starting)
    ||| (s is Starting && s2 is Ready)
    ||| ((s is NotStarted || s is Starting || s is Ready) && s2 is Failed)
    ||| s2 is Stopped
}

/// Every transition the supervisor can take follows the lifecycle relation
/// above: spawning (from the one state it is allowed in), waiting, stopping
/// and recording a child exit never move the state along any other edge.
pub proof fn lemma_transitions_follow_lifecycle(
    s: ReadinessState,
    outcome: SpawnOutcome,
    timeout_ms: u64,
    elapsed_ms: u64,
    probe: ProbeOutcome,
    code: i32,
)
    ensures
        s is NotStarted ==> lifecycle_edge(s, start_step(s, outcome)),
        lifecycle_edge(s, wait_step(s, timeout_ms, elapsed_ms, probe)),
        lifecycle_edge(s, stop_step(s)),
        lifecycle_edge(s, exit_step(s, code)),
{
}

/// Whatever a spawn attempt reports, it leaves the supervisor `Starting` or
/// already `Failed` — states in which the wait for readiness may be entered.
/// Together with the wait law below, a start followed by a completed wait
/// therefore always ends in `Ready` or `Failed`, never in `Starting`.
pub proof fn lemma_start_enables_wait(s: ReadinessState, outcome: SpawnOutcome)
    ensures
        start_step(s, outcome) is Starting || start_step(s, outcome) is Failed,
        outcome is Spawned <==> start_step(s, outcome) is Starting,
{
}

/// A completed wait never leaves the supervisor `Starting`: whatever state a
/// started supervisor is in and whatever one probe observes, once the wait
/// loop's decision is `Complete` the state is `Ready` or `Failed` — `Ready`
/// exactly when the returned result is success, and on failure the state
/// records the very error the result carries. A `RetryAfterDelay` decision,
/// conversely, changes nothing: the supervisor is still `Starting`.
pub proof fn lemma_wait_never_leaves_starting(
    s: ReadinessState,
    timeout_ms: u64,
    poll_interval_ms: u64,
    elapsed_ms: u64,
    probe: ProbeOutcome,
)
    requires
        s is Starting || s is Ready || s is Failed,
    ensures
        ({
            let s2 = wait_step(s, timeout_ms, elapsed_ms, probe);
            let d = wait_choice(s, timeout_ms, poll_interval_ms, elapsed_ms, probe);
            &&& d matches WaitDecision::Complete { result } ==> {
                &&& !(s2 is Starting)
                &&& result is Ok <==> s2 is Ready
                &&& result matches Err(e) ==> s2 == (ReadinessState::Failed { error: e })
            }
            &&& d is RetryAfterDelay ==> s2 == s && s2 is Starting
        }),
{
}

/// The wait is bounded: once the elapsed time has reached the timeout, a
/// probe that found the port still closed completes the wait with
/// `ReadinessTimeout` — the loop is never told to keep polling. And whenever
/// the loop is told to retry, the prescribed delay never runs past the
/// deadline, so the wait as a whole cannot overshoot the bound by more than
/// one poll interval.
pub proof fn lemma_wait_bounded(
    timeout_ms: u64,
    poll_interval_ms: u64,
    elapsed_ms: u64,
    probe: ProbeOutcome,
)
    ensures
        elapsed_ms >= timeout_ms && probe is NotAccepting ==> wait_choice(
            ReadinessState::Starting,
            timeout_ms,
            poll_interval_ms,
            elapsed_ms,
            probe,
        ) == (WaitDecision::Complete {
            result: Result::<(), SupervisorError>::Err(
                SupervisorError::ReadinessTimeout { elapsed_ms },
            ),
        }),
        wait_choice(
            ReadinessState::Starting,
            timeout_ms,
            poll_interval_ms,
            elapsed_ms,
            probe,
        ) matches WaitDecision::RetryAfterDelay { delay_ms } ==> elapsed_ms + delay_ms
            <= timeout_ms,
{
}

/// A child that exited is reported as `EarlyExit` with its code, never as
/// `ReadinessTimeout` — even when its exit is observed at or past the
/// deadline, the exit takes precedence.
pub proof fn lemma_early_exit_takes_precedence(
    timeout_ms: u64,
    poll_interval_ms: u64,
    elapsed_ms: u64,
    code: i32,
)
    ensures
        wait_step(
            ReadinessState::Starting,
            timeout_ms,
            elapsed_ms,
            ProbeOutcome::ChildExited { code },
        ) == (ReadinessState::Failed { error: SupervisorError::EarlyExit { code } }),
        wait_choice(
            ReadinessState::Starting,
            timeout_ms,
            poll_interval_ms,
            elapsed_ms,
            ProbeOutcome::ChildExited { code },
        ) == (WaitDecision::Complete {
            result: Result::<(), SupervisorError>::Err(SupervisorError::EarlyExit { code }),
        }),
{
}

/// Stopping is total and idempotent: from any state — never started, already
/// stopped, or anything else — `stop` leaves the supervisor `Stopped` and is
/// no error; stopping again still leaves `Stopped`, and once no child can be
/// running (as after a stop) it asks the shell to terminate nothing.
pub proof fn lemma_stop_idempotent(s: ReadinessState, grace_period_ms: u64)
    ensures
        stop_step(s) is Stopped,
        stop_step(stop_step(s)) is Stopped,
        stop_child_action(stop_step(s), grace_period_ms) == StopAction::NoChild,
        !(s is Starting) && !(s is Ready) ==> stop_child_action(s, grace_period_ms)
            == StopAction::NoChild,
{
}

} // verus!
