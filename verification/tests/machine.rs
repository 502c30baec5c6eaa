//! Tests of the launcher's state machine: the fork decision, the parent
//! epilogue, the wait-status decoding, and the failure transitions.

use session_launcher::ConfigError;
use session_launcher::ExitOutcome;
use session_launcher::ForkReport;
use session_launcher::LaunchConfig;
use session_launcher::Phase;
use session_launcher::WaitDiagnostic;
use session_launcher::decode_wait_status;
use session_launcher::should_fork;
use session_launcher::step_after_fork;
use session_launcher::step_after_session;
use session_launcher::step_after_wait;
use session_launcher::step_exec_failed;
use session_launcher::step_start;
use session_launcher::validate_flags;

fn config(force_fork: bool, wait_for_child: bool) -> LaunchConfig {
    LaunchConfig {
        program: "/bin/true".to_string(),
        arguments: vec![],
        force_fork,
        wait_for_child,
    }
}

#[test]
fn leader_always_forks() {
    assert!(should_fork(false, true));
    assert!(should_fork(true, true));
    let (phase, conflict) = step_start(&config(false, false), true);
    assert_eq!(phase, Phase::Fork);
    assert!(!conflict);
    let (phase, conflict) = step_start(&config(false, true), true);
    assert_eq!(phase, Phase::Fork);
    assert!(!conflict);
}

#[test]
fn non_leader_unforced_never_forks() {
    assert!(!should_fork(false, false));
    let (phase, conflict) = step_start(&config(false, false), false);
    assert_eq!(phase, Phase::CreateSession);
    assert!(!conflict);
}

#[test]
fn forced_fork_applies_to_non_leader() {
    assert!(should_fork(true, false));
    let (phase, conflict) = step_start(&config(true, false), false);
    assert_eq!(phase, Phase::Fork);
    assert!(!conflict);
}

#[test]
fn wait_round_trip_covers_every_status() {
    for s in 0..=255i32 {
        let wstatus = s << 8;
        let (status, diagnostic) = step_after_wait(4242, 4242, wstatus);
        assert_eq!(status, s);
        assert_eq!(diagnostic, None);
    }
}

#[test]
fn no_wait_parent_exits_zero_immediately() {
    let phase = step_after_fork(&config(false, false), ForkReport::Parent { child: 77 });
    assert_eq!(phase, Phase::Exit { status: 0 });
}

#[test]
fn waiting_parent_awaits_its_child() {
    let phase = step_after_fork(&config(true, true), ForkReport::Parent { child: 77 });
    assert_eq!(phase, Phase::AwaitChild { child: 77 });
}

#[test]
fn child_proceeds_to_session_creation() {
    // The child never consults the wait flag: same phase either way.
    let phase = step_after_fork(&config(false, true), ForkReport::Child);
    assert_eq!(phase, Phase::CreateSession);
    let phase = step_after_fork(&config(false, false), ForkReport::Child);
    assert_eq!(phase, Phase::CreateSession);
}

#[test]
fn fork_failure_is_fatal() {
    let phase = step_after_fork(&config(true, true), ForkReport::Failed);
    assert_eq!(phase, Phase::Exit { status: 1 });
}

#[test]
fn abnormal_termination_is_fatal() {
    // Low seven bits 9: the child was killed by a signal, not exited.
    let (status, diagnostic) = step_after_wait(10, 10, 9);
    assert_eq!(status, 1);
    assert_eq!(diagnostic, Some(WaitDiagnostic::AbnormalTermination));
}

#[test]
fn wait_pid_mismatch_is_fatal() {
    let (status, diagnostic) = step_after_wait(10, 11, 0);
    assert_eq!(status, 1);
    assert_eq!(diagnostic, Some(WaitDiagnostic::UnexpectedPid));
}

#[test]
fn session_failure_is_fatal() {
    assert_eq!(step_after_session(false), Phase::Exit { status: 1 });
    assert_eq!(step_after_session(true), Phase::Exec);
}

#[test]
fn exec_return_is_fatal() {
    assert_eq!(step_exec_failed(), Phase::Exit { status: 1 });
}

#[test]
fn decode_reads_the_status_bits() {
    assert_eq!(decode_wait_status(0), ExitOutcome::Exited { status: 0 });
    // 0x100 carries exit code 1: a wrapper handing its argument back
    // unchanged would yield 256 here.
    assert_eq!(decode_wait_status(0x100), ExitOutcome::Exited { status: 1 });
    assert_eq!(decode_wait_status(0x7f00), ExitOutcome::Exited { status: 127 });
    assert_eq!(decode_wait_status(0xff00), ExitOutcome::Exited { status: 255 });
    // A nonzero low seven bits means no normal exit took place.
    assert_eq!(decode_wait_status(9), ExitOutcome::Abnormal);
    assert_eq!(decode_wait_status(0x0209), ExitOutcome::Abnormal);
}

#[test]
fn ctty_request_is_rejected_before_any_process_logic() {
    assert_eq!(validate_flags(true), Err(ConfigError::CttyUnsupported));
    assert_eq!(validate_flags(false), Ok(()));
}

#[test]
fn scenario_leader_no_flags() {
    // A group leader with no flags: fork; the parent exits 0 at once;
    // the child creates the session and proceeds to replacement.
    let cfg = config(false, false);
    let (phase, conflict) = step_start(&cfg, true);
    assert_eq!(phase, Phase::Fork);
    assert!(!conflict);
    let parent = step_after_fork(&cfg, ForkReport::Parent { child: 123 });
    assert_eq!(parent, Phase::Exit { status: 0 });
    let child = step_after_fork(&cfg, ForkReport::Child);
    assert_eq!(child, Phase::CreateSession);
    assert_eq!(step_after_session(true), Phase::Exec);
}

#[test]
fn scenario_fork_and_wait_propagates_failure_status() {
    // A non-leader with fork and wait requested: the parent waits, the
    // child's program exits 1, and the parent's final status is 1.
    let cfg = LaunchConfig {
        program: "/bin/false".to_string(),
        arguments: vec![],
        force_fork: true,
        wait_for_child: true,
    };
    let (phase, conflict) = step_start(&cfg, false);
    assert_eq!(phase, Phase::Fork);
    assert!(!conflict);
    let parent = step_after_fork(&cfg, ForkReport::Parent { child: 123 });
    assert_eq!(parent, Phase::AwaitChild { child: 123 });
    let (status, diagnostic) = step_after_wait(123, 123, 1 << 8);
    assert_eq!(status, 1);
    assert_eq!(diagnostic, None);
}

#[test]
fn scenario_wait_without_fork_only_diagnoses() {
    // A non-leader with wait but no fork: the conflict is reported, yet
    // the launcher still proceeds to session creation and replacement
    // in the original process, never computing a wait-derived status.
    let cfg = config(false, true);
    let (phase, conflict) = step_start(&cfg, false);
    assert_eq!(phase, Phase::CreateSession);
    assert!(conflict);
    assert_eq!(step_after_session(true), Phase::Exec);
}
