use easy_expose::command::{apply_args, check_args, delete_args, install_failure_message, remote_program};
use easy_expose::lifecycle::{Action, Controller, Event, FailReason, Phase};
use easy_expose::remote::SimulatedRemote;
use easy_expose::supervisor::{
    decide_after_attempt, decide_after_wait, AttemptOutcome, Decision, Resume, MONITOR_INTERVAL_SECS,
    RETRY_DELAY_SECS,
};

fn monitoring_controller() -> Controller {
    let mut c = Controller::new();
    assert_eq!(c.step(Event::Connected), Action::Apply);
    assert_eq!(c.step(Event::ApplyExited { exit_ok: true }), Action::Check);
    assert_eq!(c.phase, Phase::Monitoring);
    c
}

#[test]
fn happy_path_reaches_monitoring_and_rearms() {
    let mut c = monitoring_controller();
    assert_eq!(c.step(Event::CheckExited { exit_ok: true }), Action::Check);
    assert_eq!(c.phase, Phase::Monitoring);
    assert_eq!(c.outcome(), None);
    assert_eq!(c.deletes, 0);
}

#[test]
fn connect_failure_is_reported_for_retry() {
    let mut c = Controller::new();
    assert_eq!(c.step(Event::ConnectFailed), Action::Done);
    assert_eq!(c.outcome(), Some(AttemptOutcome::Failed { reason: FailReason::Connection }));
}

#[test]
fn install_error_waits_then_restarts_from_connecting() {
    let mut c = Controller::new();
    assert_eq!(c.step(Event::Connected), Action::Apply);
    assert_eq!(c.step(Event::ApplyExited { exit_ok: false }), Action::Done);
    let outcome = c.outcome().expect("attempt ended");
    assert_eq!(outcome, AttemptOutcome::Failed { reason: FailReason::Install });
    assert_eq!(
        decide_after_attempt(outcome, false),
        Decision::RetryAfterDelay { delay_secs: RETRY_DELAY_SECS }
    );
    assert_eq!(RETRY_DELAY_SECS, 10);
    // The fresh attempt starts from Connecting; no session state survives,
    // since a controller never holds a session at all.
    let fresh = Controller::new();
    assert_eq!(fresh.phase, Phase::Connecting);
    assert_eq!(fresh.deletes, 0);
}

#[test]
fn install_transport_failure_also_fails_the_attempt() {
    let mut c = Controller::new();
    c.step(Event::Connected);
    assert_eq!(c.step(Event::ApplyTransportFailed), Action::Done);
    assert_eq!(c.outcome(), Some(AttemptOutcome::Failed { reason: FailReason::Install }));
}

#[test]
fn failure_report_carries_remote_error_text() {
    let msg = install_failure_message("no such command");
    assert_eq!(msg, "Installing redirect failed: no such command");
    assert!(msg.contains("no such command"));
}

#[test]
fn check_error_restarts_within_one_poll_interval() {
    let mut remote = SimulatedRemote::new();
    let mut c = Controller::new();
    assert_eq!(c.step(Event::Connected), Action::Apply);
    remote.apply("test_redir");
    assert_eq!(c.step(Event::ApplyExited { exit_ok: true }), Action::Check);
    assert_eq!(c.step(Event::CheckExited { exit_ok: remote.check("test_redir") }), Action::Check);
    // The table disappears behind the tool's back, mid-monitoring.
    remote.delete("test_redir");
    assert_eq!(c.step(Event::CheckExited { exit_ok: remote.check("test_redir") }), Action::Done);
    let outcome = c.outcome().expect("attempt ended");
    assert_eq!(outcome, AttemptOutcome::Failed { reason: FailReason::Check });
    assert_eq!(
        decide_after_attempt(outcome, false),
        Decision::RetryAfterDelay { delay_secs: RETRY_DELAY_SECS }
    );
    assert!(RETRY_DELAY_SECS <= MONITOR_INTERVAL_SECS);
    // The whole lifecycle restarts: a fresh attempt reinstalls the rule.
    let mut c2 = Controller::new();
    assert_eq!(c2.step(Event::Connected), Action::Apply);
    remote.apply("test_redir");
    assert_eq!(c2.step(Event::ApplyExited { exit_ok: true }), Action::Check);
    assert_eq!(c2.phase, Phase::Monitoring);
    assert_eq!(remote.count("test_redir"), 1);
}

#[test]
fn check_transport_failure_fails_the_attempt() {
    let mut c = monitoring_controller();
    assert_eq!(c.step(Event::CheckTransportFailed), Action::Done);
    assert_eq!(c.outcome(), Some(AttemptOutcome::Failed { reason: FailReason::Check }));
}

#[test]
fn cancellation_in_monitoring_deletes_exactly_once() {
    for delete_exit_ok in [true, false] {
        let mut remote = SimulatedRemote::new();
        let mut c = monitoring_controller();
        remote.apply("test_redir");
        let mut deletes_issued = 0;
        assert_eq!(c.step(Event::Cancelled), Action::CleanupConnect);
        assert_eq!(c.phase, Phase::CleanupConnecting);
        if c.step(Event::CleanupConnected) == Action::Delete {
            deletes_issued += 1;
            remote.delete("test_redir");
        }
        // The delete command's exit status is ignored.
        assert_eq!(c.step(Event::DeleteFinished { exit_ok: delete_exit_ok }), Action::Done);
        assert_eq!(deletes_issued, 1);
        assert_eq!(c.deletes, 1);
        assert_eq!(c.phase, Phase::Terminated);
        assert_eq!(c.outcome(), Some(AttemptOutcome::Terminated));
        // The supervisor then exits successfully, whatever the token shows.
        assert_eq!(decide_after_attempt(AttemptOutcome::Terminated, true), Decision::Exit);
        assert_eq!(decide_after_attempt(AttemptOutcome::Terminated, false), Decision::Exit);
        assert!(!remote.check("test_redir"));
    }
}

#[test]
fn cancellation_is_honored_only_once() {
    let mut c = monitoring_controller();
    assert_eq!(c.step(Event::Cancelled), Action::CleanupConnect);
    // Later observations of the token start no second cleanup.
    assert_eq!(c.step(Event::Cancelled), Action::Idle);
    assert_eq!(c.phase, Phase::CleanupConnecting);
    assert_eq!(c.step(Event::CleanupConnected), Action::Delete);
    assert_eq!(c.step(Event::Cancelled), Action::Idle);
    assert_eq!(c.step(Event::DeleteFinished { exit_ok: true }), Action::Done);
    assert_eq!(c.step(Event::Cancelled), Action::Idle);
    assert_eq!(c.phase, Phase::Terminated);
    assert_eq!(c.deletes, 1);
}

#[test]
fn cancellation_during_connect_and_install_is_honored() {
    let mut c = Controller::new();
    assert_eq!(c.step(Event::Cancelled), Action::CleanupConnect);
    assert_eq!(c.phase, Phase::CleanupConnecting);

    let mut c2 = Controller::new();
    c2.step(Event::Connected);
    assert_eq!(c2.step(Event::Cancelled), Action::CleanupConnect);
    assert_eq!(c2.phase, Phase::CleanupConnecting);
}

#[test]
fn failed_cleanup_connection_still_terminates() {
    let mut c = monitoring_controller();
    c.step(Event::Cancelled);
    assert_eq!(c.step(Event::CleanupConnectFailed), Action::Done);
    assert_eq!(c.phase, Phase::Terminated);
    assert_eq!(c.deletes, 0);
    assert_eq!(c.outcome(), Some(AttemptOutcome::Terminated));
}

#[test]
fn cancellation_pending_after_failure_skips_the_retry() {
    let outcome = AttemptOutcome::Failed { reason: FailReason::Connection };
    assert_eq!(decide_after_attempt(outcome, true), Decision::Exit);
    assert_eq!(decide_after_wait(true), Resume::Exit);
    assert_eq!(decide_after_wait(false), Resume::StartAttempt);
}

#[test]
fn remote_commands_are_exact() {
    assert_eq!(remote_program(), "nft");
    assert_eq!(apply_args(), vec![String::from("-f"), String::from("-")]);
    assert_eq!(
        check_args("test_redir"),
        vec![String::from("list"), String::from("table"), String::from("test_redir")]
    );
    assert_eq!(
        delete_args("test_redir"),
        vec![String::from("delete"), String::from("table"), String::from("test_redir")]
    );
}
