//! Two-phase process termination: a graceful signal with a grace window,
//! then — only on an explicit second call, after the caller confirmed —
//! an unconditional kill with a short settle window. Every outcome is
//! classified; nothing is ever escalated automatically.

use vstd::prelude::*;
use vstd::string::StringExecFns;

verus! {

/// Classified outcome of one termination attempt.
#[derive(Clone, Debug, PartialEq)]
pub enum KillStatus {
    /// The process was gone once the window passed.
    Success,
    /// The process ignored the graceful signal; the caller must confirm
    /// before escalating to the unconditional kill.
    RequiresConfirmation(u32),
    /// The OS refused the signal, or the process survived the kill; the
    /// text carries the reason.
    Failed(String),
    /// No live process had this pid when the attempt began.
    NotFound,
}

/// Grace window after the graceful signal, in milliseconds.
pub const GRACE_WAIT_MS: u64 = 1500;

/// Settle window after the unconditional kill, in milliseconds.
pub const FORCE_WAIT_MS: u64 = 200;

/// The reason text when the OS refuses the graceful signal.
pub open spec fn sigterm_failure_text(err: Seq<char>) -> Seq<char> {
    "Failed to send SIGTERM: "@ + err
}

/// The reason text when the OS refuses the unconditional kill.
pub open spec fn sigkill_failure_text(err: Seq<char>) -> Seq<char> {
    "Failed to send SIGKILL: "@ + err
}

/// The reason text when the process outlives the unconditional kill.
pub open spec fn sigkill_survived_text() -> Seq<char> {
    "Process still running after SIGKILL"@
}

/// Relies on sysinfo::System::refresh_processes and
/// sysinfo::System::processes: whether the live OS process table holds
/// `pid` right now. A fresh read on every call; nothing is promised of
/// the answer.
#[verifier::external_body]
fn process_exists(pid: u32) -> bool {
    let mut system = sysinfo::System::new();
    system.refresh_processes(
        sysinfo::ProcessesToUpdate::Some(&[sysinfo::Pid::from_u32(pid)]),
        true,
    );
    system.processes().contains_key(&sysinfo::Pid::from_u32(pid))
}

/// Relies on nix::sys::signal::kill with SIGTERM: asks `pid` to terminate
/// gracefully; on refusal the OS error description comes back.
#[verifier::external_body]
fn send_graceful_signal(pid: u32) -> Result<(), String> {
    match nix::sys::signal::kill(
        nix::unistd::Pid::from_raw(pid as i32),
        nix::sys::signal::Signal::SIGTERM,
    ) {
        Ok(()) => Ok(()),
        Err(e) => Err(e.desc().to_string()),
    }
}

/// Relies on nix::sys::signal::kill with SIGKILL: terminates `pid` without
/// its cooperation; on refusal the OS error description comes back.
#[verifier::external_body]
fn send_forceful_signal(pid: u32) -> Result<(), String> {
    match nix::sys::signal::kill(
        nix::unistd::Pid::from_raw(pid as i32),
        nix::sys::signal::Signal::SIGKILL,
    ) {
        Ok(()) => Ok(()),
        Err(e) => Err(e.desc().to_string()),
    }
}

/// Relies on nix::time::clock_nanosleep on the monotonic clock: blocks the
/// caller for about `ms` milliseconds.
#[verifier::external_body]
fn sleep_millis(ms: u64) {
    let request = nix::sys::time::TimeSpec::from(core::time::Duration::from_millis(ms));
    let _ = nix::time::clock_nanosleep(
        nix::time::ClockId::CLOCK_MONOTONIC,
        nix::time::ClockNanosleepFlags::empty(),
        &request,
    );
}

/// What the existence check decides, a pure function of the probe alone:
/// no state is carried from any earlier attempt.
pub open spec fn initial_decision(alive: bool) -> Option<KillStatus> {
    if alive {
        None
    } else {
        Some(KillStatus::NotFound)
    }
}

/// Law: the terminator is stateless, so an attempt on a pid that is still
/// gone reports `NotFound` again, however many attempts came before.
pub proof fn lemma_recheck_idempotent()
    ensures
        initial_decision(false) == Some(KillStatus::NotFound),
{
}

/// First step of both protocols: a pid absent from the live process table
/// ends the attempt as `NotFound` — no signal is sent and no window is
/// waited out.
pub fn initial_check_outcome(alive: bool) -> (r: Option<KillStatus>)
    ensures
        r == initial_decision(alive),
{
    if alive {
        None
    } else {
        Some(KillStatus::NotFound)
    }
}

/// Verdict of the graceful protocol once the grace window has passed: a
/// vanished process means success; a surviving one requires the caller to
/// confirm escalation, and the request names the pid it is about.
pub fn graceful_wait_outcome(pid: u32, still_alive: bool) -> (r: KillStatus)
    ensures
        still_alive ==> r == KillStatus::RequiresConfirmation(pid),
        !still_alive ==> r == KillStatus::Success,
{
    if still_alive {
        KillStatus::RequiresConfirmation(pid)
    } else {
        KillStatus::Success
    }
}

/// Verdict of the forceful protocol once the settle window has passed: a
/// vanished process means success; a survivor is a failure with a fixed
/// reason text.
pub fn forced_wait_outcome(still_alive: bool) -> (r: KillStatus)
    ensures
        !still_alive ==> r == KillStatus::Success,
        still_alive ==> (r matches KillStatus::Failed(m) && m@ == sigkill_survived_text()),
{
    if still_alive {
        KillStatus::Failed(String::from_str("Process still running after SIGKILL"))
    } else {
        KillStatus::Success
    }
}

/// The `Failed` outcome for a graceful signal the OS refused: the fixed
/// prefix, then the OS reason as handed back.
pub fn graceful_send_failure(err: String) -> (r: KillStatus)
    ensures
        (r matches KillStatus::Failed(m) && m@ == sigterm_failure_text(err@)),
{
    KillStatus::Failed(String::from_str("Failed to send SIGTERM: ").concat(err.as_str()))
}

/// The `Failed` outcome for an unconditional kill the OS refused.
pub fn forced_send_failure(err: String) -> (r: KillStatus)
    ensures
        (r matches KillStatus::Failed(m) && m@ == sigkill_failure_text(err@)),
{
    KillStatus::Failed(String::from_str("Failed to send SIGKILL: ").concat(err.as_str()))
}

/// Every outcome the graceful protocol can report, and no other: success,
/// absence, a confirmation request naming this very pid, or a refusal
/// whose text is the fixed prefix followed by the OS reason.
pub open spec fn graceful_outcome_ok(pid: u32, r: KillStatus) -> bool {
    match r {
        KillStatus::Success => true,
        KillStatus::NotFound => true,
        KillStatus::RequiresConfirmation(p) => p == pid,
        KillStatus::Failed(m) => exists|err: Seq<char>| m@ == sigterm_failure_text(err),
    }
}

/// Every outcome the forceful protocol can report, and no other; it never
/// asks for confirmation.
pub open spec fn forced_outcome_ok(r: KillStatus) -> bool {
    match r {
        KillStatus::Success => true,
        KillStatus::NotFound => true,
        KillStatus::RequiresConfirmation(_) => false,
        KillStatus::Failed(m) => m@ == sigkill_survived_text() || exists|err: Seq<char>|
            m@ == sigkill_failure_text(err),
    }
}

/// Graceful termination of `pid`: check existence (absent means `NotFound`
/// at once, nothing sent), send the graceful signal (an OS refusal means
/// `Failed`), wait the grace window, re-check: gone means `Success`, alive
/// means `RequiresConfirmation(pid)`. Escalation is never automatic; the
/// call blocks for about `GRACE_WAIT_MS` once the signal is away.
pub fn terminate_process(pid: u32) -> (r: KillStatus)
    ensures
        graceful_outcome_ok(pid, r),
{
    match initial_check_outcome(process_exists(pid)) {
        Some(early) => early,
        None => match send_graceful_signal(pid) {
            Err(err) => graceful_send_failure(err),
            Ok(_) => {
                sleep_millis(GRACE_WAIT_MS);
                graceful_wait_outcome(pid, process_exists(pid))
            },
        },
    }
}

/// Unconditional kill of `pid`, for after the caller confirmed: check
/// existence (absent means `NotFound`), send the kill signal (an OS
/// refusal means `Failed`), wait the settle window, re-check: gone means
/// `Success`, a survivor is a `Failed` with a fixed text. The call blocks
/// for about `FORCE_WAIT_MS` once the signal is away.
pub fn force_kill_process(pid: u32) -> (r: KillStatus)
    ensures
        forced_outcome_ok(r),
{
    match initial_check_outcome(process_exists(pid)) {
        Some(early) => early,
        None => match send_forceful_signal(pid) {
            Err(err) => forced_send_failure(err),
            Ok(_) => {
                sleep_millis(FORCE_WAIT_MS);
                forced_wait_outcome(process_exists(pid))
            },
        },
    }
}

} // verus!
