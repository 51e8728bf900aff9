//! Policy of the process that keeps the UI process running: what to do when it changes state,
//! and how long to wait before starting it again.

use vstd::prelude::*;

verus! {

/// First pause before restarting the UI process, in nanoseconds.
pub const INITIAL_RESTART_DELAY_NS: u128 = 8_000_000;

/// A UI process that ran longer than twice this has its restart pause reset, in nanoseconds.
pub const MAX_RESTART_DELAY_NS: u128 = 1_000_000_000;

/// Pause before waiting again when the wait reported nothing useful, in milliseconds.
pub const SPIN_PAUSE_MS: u64 = 16;

/// The longest duration there is, in nanoseconds.
pub open spec fn duration_max_ns() -> int {
    0xffff_ffff_ffff_ffffint * 1_000_000_000int + 999_999_999int
}

/// What waiting on the UI process reported.
#[derive(Clone, Copy, Debug, PartialEq, Eq, Structural)]
pub enum WaitOutcome {
    /// The wait returned without a status.
    NoStatus,
    /// The process exited with this status.
    Exited(i32),
    /// The process was killed by this signal.
    Signaled(i32),
    /// The process was stopped by this signal.
    Stopped(i32),
    /// Any other status, such as the process continuing.
    OtherStatus,
    /// The wait failed with an error worth retrying (`EAGAIN`, `ECHILD`, `EINTR`).
    RetryableError,
    /// The wait failed with this error number.
    Error(i32),
}

/// What the supervisor does next.
#[derive(Clone, Copy, Debug, PartialEq, Eq, Structural)]
pub enum SupervisorStep {
    /// The UI process finished cleanly; the supervisor finishes too.
    Exit,
    /// The UI process died; start it again.
    Restart,
    /// Wait again, after a pause of this many milliseconds if any.
    WaitAgain(Option<u64>),
    /// Supervision failed with this error number.
    Fail(i32),
}

/// A clean exit ends supervision; a failed exit or a fatal signal restarts the UI process;
/// stops and empty reports pause before waiting again; other statuses and retryable errors
/// wait again at once.
pub open spec fn spec_supervise_step(w: WaitOutcome) -> SupervisorStep {
    match w {
        WaitOutcome::NoStatus => SupervisorStep::WaitAgain(Some(16)),
        WaitOutcome::Exited(code) => if code == 0 { SupervisorStep::Exit } else { SupervisorStep::Restart },
        WaitOutcome::Signaled(_) => SupervisorStep::Restart,
        WaitOutcome::Stopped(_) => SupervisorStep::WaitAgain(Some(16)),
        WaitOutcome::OtherStatus => SupervisorStep::WaitAgain(None),
        WaitOutcome::RetryableError => SupervisorStep::WaitAgain(None),
        WaitOutcome::Error(e) => SupervisorStep::Fail(e),
    }
}

pub fn supervise_step(w: WaitOutcome) -> (r: SupervisorStep)
    ensures
        r == spec_supervise_step(w),
{
    match w {
        WaitOutcome::NoStatus => SupervisorStep::WaitAgain(Some(SPIN_PAUSE_MS)),
        WaitOutcome::Exited(code) => if code == 0 { SupervisorStep::Exit } else { SupervisorStep::Restart },
        WaitOutcome::Signaled(_) => SupervisorStep::Restart,
        WaitOutcome::Stopped(_) => SupervisorStep::WaitAgain(Some(SPIN_PAUSE_MS)),
        WaitOutcome::OtherStatus => SupervisorStep::WaitAgain(None),
        WaitOutcome::RetryableError => SupervisorStep::WaitAgain(None),
        WaitOutcome::Error(e) => SupervisorStep::Fail(e),
    }
}

/// Before a restart: a UI process that ran longer than twice the longest pause starts again
/// from the first pause.  Returns the pause to take now and the pause for the next restart,
/// which doubles.
pub open spec fn spec_restart_delays(delay_ns: int, uptime_ns: int) -> (int, int) {
    let d = if uptime_ns > 2 * MAX_RESTART_DELAY_NS { INITIAL_RESTART_DELAY_NS as int } else { delay_ns };
    (d, 2 * d)
}

pub fn restart_delays(delay_ns: u128, uptime_ns: u128) -> (r: (u128, u128))
    requires
        uptime_ns > 2 * MAX_RESTART_DELAY_NS || 2 * delay_ns <= duration_max_ns(),
    ensures
        (r.0 as int, r.1 as int) == spec_restart_delays(delay_ns as int, uptime_ns as int),
{
    let d = if uptime_ns > 2 * MAX_RESTART_DELAY_NS { INITIAL_RESTART_DELAY_NS } else { delay_ns };
    (d, 2 * d)
}

/// Whether `restart_delays` may be asked: the pause to double still fits in a duration.
pub fn restart_delays_fit(delay_ns: u128, uptime_ns: u128) -> (r: bool)
    ensures
        r == (uptime_ns > 2 * MAX_RESTART_DELAY_NS || 2 * delay_ns <= duration_max_ns()),
{
    uptime_ns > 2 * MAX_RESTART_DELAY_NS || delay_ns <= 0xffff_ffff_ffff_ffffu128 * 500_000_000 + 499_999_999
}

/// After a long-lived UI process, the pause is the first one whatever came before.
pub proof fn lemma_long_run_resets_delay(delay_ns: int, uptime_ns: int)
    requires
        uptime_ns > 2 * MAX_RESTART_DELAY_NS,
    ensures
        spec_restart_delays(delay_ns, uptime_ns).0 == INITIAL_RESTART_DELAY_NS,
{
}

/// After `k` quick failures in a row the pause is the first one times two to the `k`.
pub open spec fn pause_after(k: nat) -> int
    decreases k,
{
    if k == 0 { INITIAL_RESTART_DELAY_NS as int } else { 2 * pause_after((k - 1) as nat) }
}

pub proof fn lemma_quick_failures_double(k: nat, uptime_ns: int)
    requires
        uptime_ns <= 2 * MAX_RESTART_DELAY_NS,
    ensures
        spec_restart_delays(pause_after(k), uptime_ns) == (pause_after(k), pause_after(k + 1)),
{
}

} // verus!
