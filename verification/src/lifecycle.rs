//! The redirect lifecycle controller.
//!
//! One attempt walks `Connecting -> Installing -> Monitoring` and ends in
//! `Failed` (reported to the supervisor for retry) or, once cancellation is
//! observed, goes through the cleanup phases to `Terminated`. The
//! controller is a pure state machine: the surrounding binary performs the
//! network work an [`Action`] asks for and feeds the outcome back as an
//! [`Event`]. The whole transition relation is the spec function
//! [`spec_step`], which [`Controller::step`] implements exactly.

use vstd::prelude::*;

verus! {

/// Why one lifecycle attempt failed. Every failure is reported to the
/// supervisor, which decides whether to retry.
#[derive(Clone, Copy, PartialEq, Eq, Structural, Debug)]
pub enum FailReason {
    /// Opening the remote session failed (network or authentication).
    Connection,
    /// The remote apply command did not install the rule.
    Install,
    /// The periodic existence check failed or reported the table absent.
    Check,
}

/// Where one lifecycle attempt stands.
#[derive(Clone, Copy, PartialEq, Eq, Structural, Debug)]
pub enum Phase {
    /// Opening the session used for installing and monitoring.
    Connecting,
    /// Feeding the generated program to the remote apply command.
    Installing,
    /// Periodically checking that the remote table still exists.
    Monitoring,
    /// Cancellation observed: opening a fresh session for cleanup, since
    /// the session in use may be invalid.
    CleanupConnecting,
    /// Running the best-effort remote delete command.
    CleanupDeleting,
    /// The attempt failed; the supervisor decides whether to retry.
    Failed { reason: FailReason },
    /// Cancellation cleanup is over; the attempt (and the process) is done.
    Terminated,
}

/// What the surrounding binary must do next for the controller.
#[derive(Clone, Copy, PartialEq, Eq, Structural, Debug)]
pub enum Action {
    /// Open a fresh remote session for this attempt.
    Connect,
    /// Generate the rule and feed it to the remote apply command.
    Apply,
    /// Wait one poll interval, then run the remote existence check.
    Check,
    /// Open a fresh remote session for cleanup.
    CleanupConnect,
    /// Run the remote delete command for the rule's identifier.
    Delete,
    /// The attempt is over; hand the outcome to the supervisor.
    Done,
    /// Nothing: the event did not apply to the current phase.
    Idle,
}

/// What the surrounding binary observed while carrying out the pending
/// action. Cancellation races every operation and may arrive in any phase.
#[derive(Clone, Copy, PartialEq, Eq, Structural, Debug)]
pub enum Event {
    /// The attempt's session is open.
    Connected,
    /// The attempt's session could not be opened.
    ConnectFailed,
    /// The remote apply command ran to completion with this exit status.
    ApplyExited { exit_ok: bool },
    /// The channel failed while the apply command was being driven.
    ApplyTransportFailed,
    /// The remote existence check ran to completion with this exit status.
    CheckExited { exit_ok: bool },
    /// The channel failed while the existence check was being driven.
    CheckTransportFailed,
    /// The cancellation token was observed set.
    Cancelled,
    /// The cleanup session is open.
    CleanupConnected,
    /// The cleanup session could not be opened; cleanup is abandoned.
    CleanupConnectFailed,
    /// The remote delete command finished; its exit status is ignored.
    DeleteFinished { exit_ok: bool },
}

/// One lifecycle attempt, together with how many delete commands it has
/// asked for (so the cleanup-once guarantee is part of the state).
#[derive(Clone, Copy, PartialEq, Eq, Structural, Debug)]
pub struct Controller {
    pub phase: Phase,
    pub deletes: u32,
}

/// The state every controller starts an attempt in.
pub open spec fn initial_controller() -> Controller {
    Controller { phase: Phase::Connecting, deletes: 0 }
}

/// Whether cleanup has begun: from here on no further cleanup is started.
pub open spec fn cleanup_started(st: Controller) -> bool {
    st.phase is CleanupConnecting || st.phase is CleanupDeleting || st.phase is Terminated
}

/// The controller's invariant: the delete command is asked for exactly on
/// the one transition into `CleanupDeleting`, never again.
impl Controller {
    pub open spec fn wf(self) -> bool {
        &&& self.deletes <= 1
        &&& (self.phase is CleanupDeleting ==> self.deletes == 1)
        &&& ((self.phase is Connecting || self.phase is Installing || self.phase is Monitoring
            || self.phase is CleanupConnecting || self.phase is Failed) ==> self.deletes == 0)
    }
}

/// The full transition relation of one lifecycle attempt.
pub open spec fn spec_step(st: Controller, ev: Event) -> (Controller, Action) {
    match (st.phase, ev) {
        (Phase::Connecting, Event::Connected) => (
            Controller { phase: Phase::Installing, ..st },
            Action::Apply,
        ),
        (Phase::Connecting, Event::ConnectFailed) => (
            Controller { phase: Phase::Failed { reason: FailReason::Connection }, ..st },
            Action::Done,
        ),
        (Phase::Connecting, Event::Cancelled) => (
            Controller { phase: Phase::CleanupConnecting, ..st },
            Action::CleanupConnect,
        ),
        (Phase::Installing, Event::ApplyExited { exit_ok }) => {
            if exit_ok {
                (Controller { phase: Phase::Monitoring, ..st }, Action::Check)
            } else {
                (
                    Controller { phase: Phase::Failed { reason: FailReason::Install }, ..st },
                    Action::Done,
                )
            }
        },
        (Phase::Installing, Event::ApplyTransportFailed) => (
            Controller { phase: Phase::Failed { reason: FailReason::Install }, ..st },
            Action::Done,
        ),
        (Phase::Installing, Event::Cancelled) => (
            Controller { phase: Phase::CleanupConnecting, ..st },
            Action::CleanupConnect,
        ),
        (Phase::Monitoring, Event::CheckExited { exit_ok }) => {
            if exit_ok {
                (Controller { phase: Phase::Monitoring, ..st }, Action::Check)
            } else {
                (
                    Controller { phase: Phase::Failed { reason: FailReason::Check }, ..st },
                    Action::Done,
                )
            }
        },
        (Phase::Monitoring, Event::CheckTransportFailed) => (
            Controller { phase: Phase::Failed { reason: FailReason::Check }, ..st },
            Action::Done,
        ),
        (Phase::Monitoring, Event::Cancelled) => (
            Controller { phase: Phase::CleanupConnecting, ..st },
            Action::CleanupConnect,
        ),
        (Phase::CleanupConnecting, Event::CleanupConnected) => (
            Controller { phase: Phase::CleanupDeleting, deletes: (st.deletes + 1) as u32 },
            Action::Delete,
        ),
        (Phase::CleanupConnecting, Event::CleanupConnectFailed) => (
            Controller { phase: Phase::Terminated, ..st },
            Action::Done,
        ),
        (Phase::CleanupDeleting, Event::DeleteFinished { .. }) => (
            Controller { phase: Phase::Terminated, ..st },
            Action::Done,
        ),
        _ => (st, Action::Idle),
    }
}

impl Controller {
    /// A fresh attempt: no session yet, nothing installed, no cleanup run.
    pub fn new() -> (c: Controller)
        ensures
            c == initial_controller(),
            c.wf(),
    {
        Controller { phase: Phase::Connecting, deletes: 0 }
    }

    /// Decides whether the controller's invariant holds; callers outside
    /// the library test this before stepping.
    pub fn is_wf(&self) -> (b: bool)
        ensures
            b == self.wf(),
    {
        self.deletes <= 1 && (match self.phase {
            Phase::CleanupDeleting => self.deletes == 1,
            Phase::Connecting | Phase::Installing | Phase::Monitoring | Phase::CleanupConnecting
                | Phase::Failed { .. } => self.deletes == 0,
            Phase::Terminated => true,
        })
    }

    /// Advances the attempt by one observed event and says what to do next.
    pub fn step(&mut self, ev: Event) -> (a: Action)
        requires
            old(self).wf(),
        ensures
            *final(self) == spec_step(*old(self), ev).0,
            a == spec_step(*old(self), ev).1,
            final(self).wf(),
    {
        match (self.phase, ev) {
            (Phase::Connecting, Event::Connected) => {
                self.phase = Phase::Installing;
                Action::Apply
            },
            (Phase::Connecting, Event::ConnectFailed) => {
                self.phase = Phase::Failed { reason: FailReason::Connection };
                Action::Done
            },
            (Phase::Connecting, Event::Cancelled) => {
                self.phase = Phase::CleanupConnecting;
                Action::CleanupConnect
            },
            (Phase::Installing, Event::ApplyExited { exit_ok }) => {
                if exit_ok {
                    self.phase = Phase::Monitoring;
                    Action::Check
                } else {
                    self.phase = Phase::Failed { reason: FailReason::Install };
                    Action::Done
                }
            },
            (Phase::Installing, Event::ApplyTransportFailed) => {
                self.phase = Phase::Failed { reason: FailReason::Install };
                Action::Done
            },
            (Phase::Installing, Event::Cancelled) => {
                self.phase = Phase::CleanupConnecting;
                Action::CleanupConnect
            },
            (Phase::Monitoring, Event::CheckExited { exit_ok }) => {
                if exit_ok {
                    self.phase = Phase::Monitoring;
                    Action::Check
                } else {
                    self.phase = Phase::Failed { reason: FailReason::Check };
                    Action::Done
                }
            },
            (Phase::Monitoring, Event::CheckTransportFailed) => {
                self.phase = Phase::Failed { reason: FailReason::Check };
                Action::Done
            },
            (Phase::Monitoring, Event::Cancelled) => {
                self.phase = Phase::CleanupConnecting;
                Action::CleanupConnect
            },
            (Phase::CleanupConnecting, Event::CleanupConnected) => {
                self.phase = Phase::CleanupDeleting;
                self.deletes = self.deletes + 1;
                Action::Delete
            },
            (Phase::CleanupConnecting, Event::CleanupConnectFailed) => {
                self.phase = Phase::Terminated;
                Action::Done
            },
            (Phase::CleanupDeleting, Event::DeleteFinished { .. }) => {
                self.phase = Phase::Terminated;
                Action::Done
            },
            _ => Action::Idle,
        }
    }
}

/// Cleanup runs at most once per attempt: a `Delete` action is only ever
/// issued on the single step that enters `CleanupDeleting`, the delete
/// count never passes one, and once cleanup has begun no step starts
/// another one.
pub proof fn lemma_cleanup_at_most_once(st: Controller, ev: Event)
    requires
        st.wf(),
    ensures
        spec_step(st, ev).0.wf(),
        spec_step(st, ev).1 is Delete ==> st.deletes == 0 && spec_step(st, ev).0.deletes == 1,
        cleanup_started(st) ==> spec_step(st, ev).1 !is CleanupConnect,
        cleanup_started(st) && !(st.phase is CleanupConnecting) ==> spec_step(st, ev).1 !is Delete,
        st.phase is Terminated ==> spec_step(st, ev).0 == st && spec_step(st, ev).1 is Idle,
{
}

/// Observing cancellation in any active phase moves the attempt into
/// cleanup, exactly once: the first observation starts the cleanup
/// connection, and every later observation is ignored.
pub proof fn lemma_cancellation_honored(st: Controller)
    requires
        st.wf(),
    ensures
        (st.phase is Connecting || st.phase is Installing || st.phase is Monitoring) ==> {
            &&& spec_step(st, Event::Cancelled).0.phase is CleanupConnecting
            &&& spec_step(st, Event::Cancelled).1 is CleanupConnect
        },
        cleanup_started(st) ==> spec_step(st, Event::Cancelled).0 == st && spec_step(
            st,
            Event::Cancelled,
        ).1 is Idle,
{
}

/// Once cleanup has begun, the attempt never returns to the active
/// phases and never asks for further connect, apply or check work: in
/// particular, cancellation observed while connecting or installing is
/// honored before the first monitoring check could run.
pub proof fn lemma_cleanup_is_final(st: Controller, ev: Event)
    requires
        st.wf(),
        cleanup_started(st),
    ensures
        cleanup_started(spec_step(st, ev).0),
        spec_step(st, ev).1 !is Connect,
        spec_step(st, ev).1 !is Apply,
        spec_step(st, ev).1 !is Check,
{
}

/// Cancellation delivered while monitoring leads to exactly one delete
/// command and then to successful termination, whatever exit status the
/// delete command reports.
pub proof fn lemma_cancel_during_monitoring(st: Controller, delete_exit_ok: bool)
    requires
        st.wf(),
        st.phase is Monitoring,
    ensures
        ({
            let (s1, a1) = spec_step(st, Event::Cancelled);
            let (s2, a2) = spec_step(s1, Event::CleanupConnected);
            let (s3, a3) = spec_step(s2, Event::DeleteFinished { exit_ok: delete_exit_ok });
            &&& a1 is CleanupConnect
            &&& a2 is Delete
            &&& a3 is Done
            &&& s2.deletes == 1
            &&& s3.phase is Terminated
            &&& s3.deletes == 1
        }),
{
}

} // verus!
