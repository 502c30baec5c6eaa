//! Decoding of raw wait statuses.
//!
//! A parent that waits receives a raw status word from the OS. The C
//! library's accessors tell whether the child terminated by a normal
//! exit and, if so, which exit code (0 to 255) it carried. Those two
//! accessors are trusted; the decoding built on them is verified.

use vstd::prelude::*;

verus! {

/// The low seven bits of a wait status are zero exactly when the child
/// terminated by a normal exit (rather than by a signal).
pub open spec fn spec_exited_normally(wstatus: i32) -> bool {
    (wstatus as u32) & 0x7f == 0
}

/// The exit code carried in bits 8 to 15 of a wait status.
pub open spec fn spec_exit_code(wstatus: i32) -> i32 {
    ((((wstatus as u32) >> 8) & 0xff)) as i32
}

/// Relies on libc's `WIFEXITED` (reached through nix's libc re-export):
/// on this target it returns `(wstatus & 0x7f) == 0`.
#[verifier::external_body]
fn wif_exited(wstatus: i32) -> (r: bool)
    ensures
        r == spec_exited_normally(wstatus),
{
    nix::libc::WIFEXITED(wstatus)
}

/// Relies on libc's `WEXITSTATUS` (reached through nix's libc
/// re-export): on this target it returns `(wstatus >> 8) & 0xff`.
#[verifier::external_body]
fn wexit_status(wstatus: i32) -> (r: i32)
    ensures
        r == spec_exit_code(wstatus),
{
    nix::libc::WEXITSTATUS(wstatus)
}

/// What the parent learns from the child's wait status: a normal exit
/// with a status in 0 to 255, or an abnormal termination.
#[derive(PartialEq, Eq, Structural, Clone, Copy, Debug)]
pub enum ExitOutcome {
    /// The child exited normally with this status.
    Exited { status: i32 },
    /// The child was terminated abnormally, for example by a signal.
    Abnormal,
}

/// The outcome a given wait status decodes to.
pub open spec fn spec_decode(wstatus: i32) -> ExitOutcome {
    if spec_exited_normally(wstatus) {
        ExitOutcome::Exited { status: spec_exit_code(wstatus) }
    } else {
        ExitOutcome::Abnormal
    }
}

/// A well-formed outcome carries a status in 0 to 255.
pub open spec fn outcome_wf(o: ExitOutcome) -> bool {
    o matches ExitOutcome::Exited { status } ==> 0 <= status <= 255
}

/// An exit code extracted from a wait status always lies in 0 to 255.
pub proof fn lemma_exit_code_range(wstatus: i32)
    ensures
        0 <= spec_exit_code(wstatus) <= 255,
{
    assert(((((wstatus as u32) >> 8) & 0xff)) as i32 == (((wstatus as u32) >> 8) & 0xff)
        && (((wstatus as u32) >> 8) & 0xff) <= 255) by (bit_vector);
}

/// Decodes a raw wait status into the outcome the parent acts on.
pub fn decode_wait_status(wstatus: i32) -> (r: ExitOutcome)
    ensures
        r == spec_decode(wstatus),
        outcome_wf(r),
{
    proof {
        lemma_exit_code_range(wstatus);
    }
    if wif_exited(wstatus) {
        ExitOutcome::Exited { status: wexit_status(wstatus) }
    } else {
        ExitOutcome::Abnormal
    }
}

} // verus!
