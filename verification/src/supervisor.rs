//! The retry/backoff supervisor.
//!
//! The supervisor is the single point of retry decision: it runs one
//! lifecycle attempt, exits successfully when the attempt terminated
//! through cancellation cleanup, and otherwise waits a fixed delay (racing
//! the cancellation signal) before starting a fresh attempt from the
//! connecting phase.

use crate::lifecycle::Controller;
use crate::lifecycle::FailReason;
use crate::lifecycle::Phase;
use vstd::prelude::*;

verus! {

/// Seconds the supervisor waits after a failed attempt before retrying.
pub const RETRY_DELAY_SECS: u64 = 10;

/// Seconds between two existence checks while monitoring.
pub const MONITOR_INTERVAL_SECS: u64 = 60;

/// How one lifecycle attempt ended, as the supervisor sees it.
#[derive(Clone, Copy, PartialEq, Eq, Structural, Debug)]
pub enum AttemptOutcome {
    /// Cancellation cleanup completed; the process is done.
    Terminated,
    /// The attempt failed for this reason and may be retried.
    Failed { reason: FailReason },
}

/// What the supervisor does once an attempt has ended.
#[derive(Clone, Copy, PartialEq, Eq, Structural, Debug)]
pub enum Decision {
    /// Stop: either cleanup completed or cancellation is pending.
    Exit,
    /// Wait this many seconds (racing cancellation), then start a fresh
    /// attempt from the connecting phase.
    RetryAfterDelay { delay_secs: u64 },
}

/// The supervisor's decision: exit on termination or pending cancellation,
/// retry after the fixed delay on any failure.
pub open spec fn spec_decide(outcome: AttemptOutcome, cancelled: bool) -> Decision {
    match outcome {
        AttemptOutcome::Terminated => Decision::Exit,
        AttemptOutcome::Failed { .. } => if cancelled {
            Decision::Exit
        } else {
            Decision::RetryAfterDelay { delay_secs: RETRY_DELAY_SECS }
        },
    }
}

/// Decides what to do after one attempt, given whether the cancellation
/// token has been observed set.
pub fn decide_after_attempt(outcome: AttemptOutcome, cancelled: bool) -> (d: Decision)
    ensures
        d == spec_decide(outcome, cancelled),
{
    match outcome {
        AttemptOutcome::Terminated => Decision::Exit,
        AttemptOutcome::Failed { .. } => if cancelled {
            Decision::Exit
        } else {
            Decision::RetryAfterDelay { delay_secs: RETRY_DELAY_SECS }
        },
    }
}

/// What the supervisor does when the retry delay is over.
#[derive(Clone, Copy, PartialEq, Eq, Structural, Debug)]
pub enum Resume {
    /// Cancellation arrived during the wait: exit at once, with no
    /// further cleanup attempt.
    Exit,
    /// Start a fresh attempt from the connecting phase.
    StartAttempt,
}

/// Decides what to do once the retry delay is over: if cancellation
/// arrived during the wait the supervisor exits at once, with no further
/// cleanup attempt; otherwise a fresh attempt starts.
pub fn decide_after_wait(cancelled_during_wait: bool) -> (d: Resume)
    ensures
        d is Exit <==> cancelled_during_wait,
        d is StartAttempt <==> !cancelled_during_wait,
{
    if cancelled_during_wait {
        Resume::Exit
    } else {
        Resume::StartAttempt
    }
}

impl Controller {
    /// The attempt's outcome, once it has reached a terminal phase.
    pub fn outcome(&self) -> (r: Option<AttemptOutcome>)
        ensures
            self.phase is Terminated ==> r == Some(AttemptOutcome::Terminated),
            self.phase matches Phase::Failed { reason } ==> r == Some(
                AttemptOutcome::Failed { reason },
            ),
            !(self.phase is Terminated || self.phase is Failed) ==> r is None,
    {
        match self.phase {
            Phase::Terminated => Some(AttemptOutcome::Terminated),
            Phase::Failed { reason } => Some(AttemptOutcome::Failed { reason }),
            _ => None,
        }
    }
}

/// Cleanup runs at most once per process run: an attempt that ends in
/// failure has never asked for a delete command, and once an attempt has
/// terminated through cleanup the supervisor exits without starting
/// another attempt, whatever the cancellation token shows.
pub proof fn lemma_cleanup_once_per_run(c: Controller, cancelled: bool)
    requires
        c.wf(),
    ensures
        c.phase is Failed ==> c.deletes == 0,
        c.phase is Terminated ==> c.deletes <= 1,
        spec_decide(AttemptOutcome::Terminated, cancelled) == Decision::Exit,
{
}

/// A failed installation, with no cancellation pending, is retried after
/// the fixed delay, and the fresh attempt starts from the connecting phase
/// with no session carried over and no cleanup performed.
pub proof fn lemma_install_failure_retries_fresh()
    ensures
        spec_decide(AttemptOutcome::Failed { reason: FailReason::Install }, false) == (
        Decision::RetryAfterDelay { delay_secs: RETRY_DELAY_SECS }),
        crate::lifecycle::initial_controller().phase is Connecting,
        crate::lifecycle::initial_controller().deletes == 0,
{
}

/// A failed existence check restarts the whole lifecycle: the attempt ends
/// on the failing check in a single step, and the retry delay is within
/// one poll interval.
pub proof fn lemma_check_failure_restarts(st: Controller)
    requires
        st.wf(),
        st.phase is Monitoring,
    ensures
        ({
            let (s1, a1) = crate::lifecycle::spec_step(
                st,
                crate::lifecycle::Event::CheckExited { exit_ok: false },
            );
            &&& s1.phase == (Phase::Failed { reason: FailReason::Check })
            &&& a1 is Done
        }),
        spec_decide(AttemptOutcome::Failed { reason: FailReason::Check }, false) == (
        Decision::RetryAfterDelay { delay_secs: RETRY_DELAY_SECS }),
        RETRY_DELAY_SECS <= MONITOR_INTERVAL_SECS,
{
}

} // verus!
