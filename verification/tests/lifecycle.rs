//! Lifecycle scenarios: spawn outcomes, the readiness wait, stop, and
//! mid-life child exits, driven with simulated probe reports.

use backend_supervisor::config::SupervisorConfig;
use backend_supervisor::state::ReadinessState;
use backend_supervisor::state::SupervisorError;
use backend_supervisor::supervisor::ProbeOutcome;
use backend_supervisor::supervisor::ProcessSupervisor;
use backend_supervisor::supervisor::SpawnOutcome;
use backend_supervisor::supervisor::StopAction;
use backend_supervisor::supervisor::WaitDecision;

fn config_with_timeout(timeout_ms: u64, poll_interval_ms: u64) -> SupervisorConfig {
    SupervisorConfig {
        scheme: String::from("http"),
        host: String::from("127.0.0.1"),
        port: 5173,
        poll_interval_ms,
        timeout_ms,
        grace_period_ms: 2000,
    }
}

#[test]
fn start_then_ready_leaves_ready() {
    let mut sup = ProcessSupervisor::new(SupervisorConfig::default());
    assert_eq!(sup.current_state(), ReadinessState::NotStarted);
    assert_eq!(sup.start(SpawnOutcome::Spawned), Ok(()));
    assert_eq!(sup.current_state(), ReadinessState::Starting);
    let d = sup.poll_ready(0, ProbeOutcome::NotAccepting);
    assert_eq!(d, WaitDecision::RetryAfterDelay { delay_ms: 50 });
    assert_eq!(sup.current_state(), ReadinessState::Starting);
    let d = sup.poll_ready(50, ProbeOutcome::Accepted);
    assert_eq!(d, WaitDecision::Complete { result: Ok(()) });
    assert_eq!(sup.current_state(), ReadinessState::Ready);
}

#[test]
fn spawn_failure_is_surfaced() {
    let mut sup = ProcessSupervisor::new(SupervisorConfig::default());
    assert_eq!(
        sup.start(SpawnOutcome::SpawnFailed),
        Err(SupervisorError::SpawnError)
    );
    assert_eq!(
        sup.current_state(),
        ReadinessState::Failed {
            error: SupervisorError::SpawnError
        }
    );
}

#[test]
fn wait_times_out_within_bound() {
    let mut sup = ProcessSupervisor::new(config_with_timeout(200, 50));
    assert_eq!(sup.start(SpawnOutcome::Spawned), Ok(()));
    let mut elapsed: u64 = 0;
    loop {
        match sup.poll_ready(elapsed, ProbeOutcome::NotAccepting) {
            WaitDecision::RetryAfterDelay { delay_ms } => {
                assert!(elapsed + delay_ms <= 200);
                elapsed += delay_ms;
            }
            WaitDecision::Complete { result } => {
                assert_eq!(
                    result,
                    Err(SupervisorError::ReadinessTimeout { elapsed_ms: 200 })
                );
                break;
            }
        }
    }
    assert_eq!(elapsed, 200);
    assert_eq!(
        sup.current_state(),
        ReadinessState::Failed {
            error: SupervisorError::ReadinessTimeout { elapsed_ms: 200 }
        }
    );
}

#[test]
fn retry_delay_is_clipped_to_deadline() {
    let mut sup = ProcessSupervisor::new(config_with_timeout(120, 50));
    assert_eq!(sup.start(SpawnOutcome::Spawned), Ok(()));
    assert_eq!(
        sup.poll_ready(100, ProbeOutcome::NotAccepting),
        WaitDecision::RetryAfterDelay { delay_ms: 20 }
    );
}

#[test]
fn early_exit_reported_not_timeout() {
    let mut sup = ProcessSupervisor::new(config_with_timeout(200, 50));
    assert_eq!(sup.start(SpawnOutcome::Spawned), Ok(()));
    let d = sup.poll_ready(0, ProbeOutcome::ChildExited { code: 1 });
    assert_eq!(
        d,
        WaitDecision::Complete {
            result: Err(SupervisorError::EarlyExit { code: 1 })
        }
    );
    assert_eq!(
        sup.current_state(),
        ReadinessState::Failed {
            error: SupervisorError::EarlyExit { code: 1 }
        }
    );
}

#[test]
fn early_exit_wins_even_past_deadline() {
    let mut sup = ProcessSupervisor::new(config_with_timeout(200, 50));
    assert_eq!(sup.start(SpawnOutcome::Spawned), Ok(()));
    let d = sup.poll_ready(5000, ProbeOutcome::ChildExited { code: 1 });
    assert_eq!(
        d,
        WaitDecision::Complete {
            result: Err(SupervisorError::EarlyExit { code: 1 })
        }
    );
}

#[test]
fn completed_wait_answers_again_with_same_verdict() {
    let mut sup = ProcessSupervisor::new(SupervisorConfig::default());
    assert_eq!(sup.start(SpawnOutcome::Spawned), Ok(()));
    assert_eq!(
        sup.poll_ready(0, ProbeOutcome::Accepted),
        WaitDecision::Complete { result: Ok(()) }
    );
    // A second wait on an already-decided supervisor completes at once.
    assert_eq!(
        sup.poll_ready(0, ProbeOutcome::NotAccepting),
        WaitDecision::Complete { result: Ok(()) }
    );
    assert_eq!(sup.current_state(), ReadinessState::Ready);
}

#[test]
fn stop_before_start_is_a_no_op() {
    let mut sup = ProcessSupervisor::new(SupervisorConfig::default());
    assert_eq!(sup.stop(), StopAction::NoChild);
    assert_eq!(sup.current_state(), ReadinessState::Stopped);
}

#[test]
fn stop_twice_leaves_stopped() {
    let mut sup = ProcessSupervisor::new(SupervisorConfig::default());
    assert_eq!(sup.start(SpawnOutcome::Spawned), Ok(()));
    assert_eq!(
        sup.stop(),
        StopAction::TerminateChild {
            grace_period_ms: 2000
        }
    );
    assert_eq!(sup.current_state(), ReadinessState::Stopped);
    assert_eq!(sup.stop(), StopAction::NoChild);
    assert_eq!(sup.current_state(), ReadinessState::Stopped);
}

#[test]
fn stop_of_ready_backend_terminates_child() {
    let mut sup = ProcessSupervisor::new(SupervisorConfig::default());
    assert_eq!(sup.start(SpawnOutcome::Spawned), Ok(()));
    assert_eq!(
        sup.poll_ready(0, ProbeOutcome::Accepted),
        WaitDecision::Complete { result: Ok(()) }
    );
    assert_eq!(
        sup.stop(),
        StopAction::TerminateChild {
            grace_period_ms: 2000
        }
    );
    assert_eq!(sup.current_state(), ReadinessState::Stopped);
}

#[test]
fn mid_life_exit_moves_ready_to_failed() {
    let mut sup = ProcessSupervisor::new(SupervisorConfig::default());
    assert_eq!(sup.start(SpawnOutcome::Spawned), Ok(()));
    assert_eq!(
        sup.poll_ready(0, ProbeOutcome::Accepted),
        WaitDecision::Complete { result: Ok(()) }
    );
    sup.record_child_exit(3);
    assert_eq!(
        sup.current_state(),
        ReadinessState::Failed {
            error: SupervisorError::EarlyExit { code: 3 }
        }
    );
}

#[test]
fn exit_report_after_stop_changes_nothing() {
    let mut sup = ProcessSupervisor::new(SupervisorConfig::default());
    assert_eq!(sup.stop(), StopAction::NoChild);
    sup.record_child_exit(9);
    assert_eq!(sup.current_state(), ReadinessState::Stopped);
}

#[test]
fn default_config_values() {
    let c = SupervisorConfig::default();
    assert_eq!(c.scheme, "http");
    assert_eq!(c.host, "127.0.0.1");
    assert_eq!(c.port, 5173);
    assert_eq!(c.poll_interval_ms, 50);
    assert_eq!(c.timeout_ms, 10000);
    assert_eq!(c.grace_period_ms, 2000);
}
