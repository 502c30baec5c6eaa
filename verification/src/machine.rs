//! The launcher's state machine.
//!
//! The launcher is a straight-line sequence of OS operations with two
//! branch points: fork or not, and wait or not. Each transition is a
//! verified function from what the OS reported to the next phase; the
//! unverified shell only performs the phase's operation and feeds the
//! result back. The machine runs, per process, from `Fork` or
//! `CreateSession` to either `Exit` (the process terminates with the
//! given status) or past `Exec` (the process image is replaced and the
//! launcher's own code ends).

use vstd::prelude::*;

use crate::config::LaunchConfig;
use crate::status::ExitOutcome;
use crate::status::lemma_exit_code_range;
use crate::status::spec_exit_code;
use crate::status::spec_exited_normally;

verus! {

/// Exit status of a launcher process that failed, or whose child ended
/// abnormally.
pub const FATAL_STATUS: i32 = 1;

/// Exit status of a parent that was not asked to wait.
pub const SUCCESS_STATUS: i32 = 0;

/// What the process-duplication primitive reported to the process at
/// hand. After a successful fork each of the two processes sees exactly
/// one of the first two variants.
#[derive(PartialEq, Eq, Structural, Clone, Copy, Debug)]
pub enum ForkReport {
    /// This is the original process, now aware of its child's process ID.
    Parent { child: i32 },
    /// This is the freshly created process.
    Child,
    /// The primitive failed; there is no child.
    Failed,
}

/// A phase of the launcher. Each names the one operation the shell
/// performs next.
#[derive(PartialEq, Eq, Structural, Clone, Copy, Debug)]
pub enum Phase {
    /// Duplicate the process and report the outcome.
    Fork,
    /// Parent with a live child: block until the child changes state.
    AwaitChild { child: i32 },
    /// Request a new session from the OS.
    CreateSession,
    /// Replace the process image with the target program.
    Exec,
    /// Terminate the process with this status.
    Exit { status: i32 },
}

/// The fork decision: fork when forced by configuration, or when the
/// process leads its own group (session creation would otherwise be
/// guaranteed to fail).
pub open spec fn spec_should_fork(force_fork: bool, is_leader: bool) -> bool {
    force_fork || is_leader
}

/// The first phase: fork when the decision says so, otherwise go
/// straight to session creation in the original process.
pub open spec fn spec_start_phase(force_fork: bool, is_leader: bool) -> Phase {
    if spec_should_fork(force_fork, is_leader) {
        Phase::Fork
    } else {
        Phase::CreateSession
    }
}

/// The configuration conflict: waiting was requested, but no fork will
/// happen, so no wait-derived exit status can ever be computed. The
/// conflict is reported as a diagnostic only; execution continues.
pub open spec fn spec_wait_conflict(force_fork: bool, is_leader: bool, wait_for_child: bool) -> bool {
    wait_for_child && !spec_should_fork(force_fork, is_leader)
}

/// Decides whether the launcher must duplicate the process before
/// creating a new session.
pub fn should_fork(force_fork: bool, is_leader: bool) -> (r: bool)
    ensures
        r == spec_should_fork(force_fork, is_leader),
{
    force_fork || is_leader
}

/// The first transition, from the configuration and the leadership
/// check: the phase to enter, and whether the wait-without-fork
/// conflict diagnostic must be emitted. Even when the diagnostic is due,
/// the returned phase proceeds to session creation: the launcher never
/// terminates early over the conflict.
pub fn step_start(cfg: &LaunchConfig, is_leader: bool) -> (r: (Phase, bool))
    ensures
        r.0 == spec_start_phase(cfg.force_fork, is_leader),
        r.1 == spec_wait_conflict(cfg.force_fork, is_leader, cfg.wait_for_child),
{
    if should_fork(cfg.force_fork, is_leader) {
        (Phase::Fork, false)
    } else {
        (Phase::CreateSession, cfg.wait_for_child)
    }
}

/// The phase that follows the fork report. The parent either awaits the
/// child or exits at once with success; the child proceeds to session
/// creation without ever consulting the wait flag; a failed fork is
/// fatal.
pub open spec fn spec_after_fork(report: ForkReport, wait_for_child: bool) -> Phase {
    match report {
        ForkReport::Parent { child } => if wait_for_child {
            Phase::AwaitChild { child }
        } else {
            Phase::Exit { status: SUCCESS_STATUS }
        },
        ForkReport::Child => Phase::CreateSession,
        ForkReport::Failed => Phase::Exit { status: FATAL_STATUS },
    }
}

/// The transition taken right after the process-duplication primitive
/// returned.
pub fn step_after_fork(cfg: &LaunchConfig, report: ForkReport) -> (r: Phase)
    ensures
        r == spec_after_fork(report, cfg.wait_for_child),
{
    match report {
        ForkReport::Parent { child } => if cfg.wait_for_child {
            Phase::AwaitChild { child }
        } else {
            Phase::Exit { status: SUCCESS_STATUS }
        },
        ForkReport::Child => Phase::CreateSession,
        ForkReport::Failed => Phase::Exit { status: FATAL_STATUS },
    }
}

/// A diagnostic the waiting parent may owe before it exits.
#[derive(PartialEq, Eq, Structural, Clone, Copy, Debug)]
pub enum WaitDiagnostic {
    /// The wait primitive reported a process other than the expected
    /// child.
    UnexpectedPid,
    /// The child was terminated abnormally, for example by a signal.
    AbnormalTermination,
}

/// The exit status a waiting parent propagates: the child's own exit
/// status when the expected child exited normally, and the fatal status
/// on a mismatched process ID or an abnormal termination.
pub open spec fn spec_wait_exit_status(child: i32, reported: i32, wstatus: i32) -> i32 {
    if reported != child {
        FATAL_STATUS
    } else if spec_exited_normally(wstatus) {
        spec_exit_code(wstatus)
    } else {
        FATAL_STATUS
    }
}

/// The diagnostic owed for a given wait observation, if any.
pub open spec fn spec_wait_diagnostic(child: i32, reported: i32, wstatus: i32) -> Option<WaitDiagnostic> {
    if reported != child {
        Some(WaitDiagnostic::UnexpectedPid)
    } else if spec_exited_normally(wstatus) {
        None
    } else {
        Some(WaitDiagnostic::AbnormalTermination)
    }
}

/// The parent epilogue after the blocking wait returned: the status to
/// terminate with (always in 0 to 255 when the child exited normally,
/// the fatal status otherwise), and the diagnostic owed, if any.
pub fn step_after_wait(child: i32, reported: i32, wstatus: i32) -> (r: (i32, Option<WaitDiagnostic>))
    ensures
        r.0 == spec_wait_exit_status(child, reported, wstatus),
        r.1 == spec_wait_diagnostic(child, reported, wstatus),
        0 <= r.0 <= 255,
{
    proof {
        lemma_exit_code_range(wstatus);
    }
    if reported != child {
        (FATAL_STATUS, Some(WaitDiagnostic::UnexpectedPid))
    } else {
        match crate::status::decode_wait_status(wstatus) {
            ExitOutcome::Exited { status } => (status, None),
            ExitOutcome::Abnormal => (FATAL_STATUS, Some(WaitDiagnostic::AbnormalTermination)),
        }
    }
}

/// The phase that follows the session-creation attempt: replacement on
/// success, a fatal exit on failure.
pub open spec fn spec_after_session(created: bool) -> Phase {
    if created {
        Phase::Exec
    } else {
        Phase::Exit { status: FATAL_STATUS }
    }
}

/// The transition taken after the session-creation request returned.
pub fn step_after_session(created: bool) -> (r: Phase)
    ensures
        r == spec_after_session(created),
{
    if created {
        Phase::Exec
    } else {
        Phase::Exit { status: FATAL_STATUS }
    }
}

/// The transition taken when program replacement returned, which it
/// does only on failure: the launcher must not continue as if the
/// program had run.
pub fn step_exec_failed() -> (r: Phase)
    ensures
        r == (Phase::Exit { status: FATAL_STATUS }),
{
    Phase::Exit { status: FATAL_STATUS }
}

/// A process that leads its own group always forks, whatever the
/// configuration says: session creation would otherwise be guaranteed
/// to fail.
pub proof fn lemma_leader_always_forks(force_fork: bool)
    ensures
        spec_should_fork(force_fork, true),
        spec_start_phase(force_fork, true) == Phase::Fork,
{
}

/// The launcher's central invariant, as far as the model sees it:
/// session creation is reached without a fork only when the process is
/// not a group leader, so the fork decision establishes the
/// precondition of the session request. (That the child of a fork is
/// never a group leader is the OS's guarantee, not stated here.)
pub proof fn lemma_no_fork_only_for_non_leaders(force_fork: bool, is_leader: bool)
    ensures
        spec_start_phase(force_fork, is_leader) == Phase::CreateSession ==> !is_leader,
{
}

/// A process that does not lead its own group, and is not forced to
/// fork, forks never: session creation happens in the original process.
pub proof fn lemma_non_leader_unforced_never_forks()
    ensures
        !spec_should_fork(false, false),
        spec_start_phase(false, false) == Phase::CreateSession,
{
}

/// When the expected child exits normally, the waiting parent's final
/// exit status equals the child's exit status exactly, whichever of the
/// 256 values it is.
pub proof fn lemma_wait_round_trip(child: i32, wstatus: i32, s: i32)
    requires
        spec_exited_normally(wstatus),
        spec_exit_code(wstatus) == s,
    ensures
        spec_wait_exit_status(child, child, wstatus) == s,
        spec_wait_diagnostic(child, child, wstatus) is None,
{
}

/// Every exit status from 0 to 255 is carried by some wait status, so
/// the round trip covers the full range: the status word that encodes
/// `s` decodes to a normal exit with code `s`.
pub proof fn lemma_every_status_representable(s: i32)
    requires
        0 <= s <= 255,
    ensures
        spec_exited_normally((((s as u32) << 8)) as i32),
        spec_exit_code((((s as u32) << 8)) as i32) == s,
{
    assert(0 <= s <= 255 ==> (((((s as u32) << 8)) as i32) as u32) & 0x7f == 0) by (bit_vector);
    assert(0 <= s <= 255 ==> (((((((s as u32) << 8)) as i32) as u32) >> 8) & 0xff) as i32 == s)
        by (bit_vector);
}

/// A parent that was not asked to wait terminates at once with success,
/// independent of anything the child later does.
pub proof fn lemma_no_wait_parent_exits_immediately(child: i32)
    ensures
        spec_after_fork(ForkReport::Parent { child }, false) == (Phase::Exit { status: SUCCESS_STATUS }),
{
}

/// The wait-without-fork conflict does not terminate the launcher: the
/// diagnostic is owed, yet the very same configuration still proceeds
/// to session creation (and from there to program replacement).
pub proof fn lemma_conflict_only_diagnoses()
    ensures
        spec_wait_conflict(false, false, true),
        spec_start_phase(false, false) == Phase::CreateSession,
        spec_after_session(true) == Phase::Exec,
{
}

} // verus!
