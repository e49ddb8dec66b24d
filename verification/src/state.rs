//! Lifecycle states of the supervised child and the supervisor's error taxonomy.

use vstd::prelude::*;

verus! {

/// Why the supervised child process is not serving.
///
/// Every failure the supervisor can observe is one of these, so the shell can
/// render a precise diagnostic instead of a generic one.
#[derive(Clone, Copy, Debug, PartialEq, Eq)]
pub enum SupervisorError {
    /// The operating system refused to create the child process.
    SpawnError,
    /// The child was spawned but never became reachable within the
    /// configured bound; carries the elapsed wait for diagnostics.
    ReadinessTimeout { elapsed_ms: u64 },
    /// The child process exited, before or after becoming reachable;
    /// carries its exit code.
    EarlyExit { code: i32 },
}

/// Lifecycle state of the single supervised child process.
#[derive(Clone, Copy, Debug, PartialEq, Eq)]
pub enum ReadinessState {
    /// No start was requested yet.
    NotStarted,
    /// The child was spawned and is being probed for readiness.
    Starting,
    /// The child accepted a readiness probe and is considered serving.
    Ready,
    /// The child will not serve; the error says why.
    Failed { error: SupervisorError },
    /// The supervisor was shut down.
    Stopped,
}

} // verus!
