use memwatch::killer::{
    force_kill_process, forced_wait_outcome, graceful_send_failure, graceful_wait_outcome,
    initial_check_outcome, terminate_process, KillStatus, FORCE_WAIT_MS, GRACE_WAIT_MS,
};
use std::time::Instant;

// Far above the kernel's largest assignable pid (4194304) and still a
// positive i32, so it never names a live process.
const ABSENT_PID: u32 = 2_000_000_000;

#[test]
fn terminate_absent_pid_is_not_found_and_instant() {
    let started = Instant::now();
    let outcome = terminate_process(ABSENT_PID);
    let took = started.elapsed();
    assert_eq!(outcome, KillStatus::NotFound);
    // No signal was sent, so no grace window was waited out.
    assert!(took.as_millis() < GRACE_WAIT_MS as u128);
}

#[test]
fn force_kill_absent_pid_is_not_found_and_instant() {
    let started = Instant::now();
    let outcome = force_kill_process(ABSENT_PID);
    let took = started.elapsed();
    assert_eq!(outcome, KillStatus::NotFound);
    assert!(took.as_millis() < FORCE_WAIT_MS as u128 + 1_000);
}

#[test]
fn terminate_twice_on_gone_pid_stays_not_found() {
    assert_eq!(terminate_process(ABSENT_PID), KillStatus::NotFound);
    assert_eq!(terminate_process(ABSENT_PID), KillStatus::NotFound);
}

#[test]
fn initial_check_decides_not_found_exactly_for_absent() {
    assert_eq!(initial_check_outcome(false), Some(KillStatus::NotFound));
    assert_eq!(initial_check_outcome(true), None);
}

#[test]
fn grace_window_verdicts() {
    // A process that exited within the grace window: success.
    assert_eq!(graceful_wait_outcome(1234, false), KillStatus::Success);
    // One that ignored the signal: escalation needs explicit confirmation,
    // and the request names the pid.
    assert_eq!(graceful_wait_outcome(1234, true), KillStatus::RequiresConfirmation(1234));
}

#[test]
fn settle_window_verdicts() {
    assert_eq!(forced_wait_outcome(false), KillStatus::Success);
    assert_eq!(
        forced_wait_outcome(true),
        KillStatus::Failed("Process still running after SIGKILL".to_string())
    );
}

#[test]
fn refused_signal_reports_the_os_reason() {
    let outcome = graceful_send_failure("Operation not permitted".to_string());
    assert_eq!(
        outcome,
        KillStatus::Failed("Failed to send SIGTERM: Operation not permitted".to_string())
    );
}
