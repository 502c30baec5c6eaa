//! The OS probes the launcher needs: the leadership check and the
//! session-creation request. Each OS call stands behind a trusted
//! wrapper; the decisions taken on their results are verified in the
//! state machine.

use vstd::prelude::*;

verus! {

/// Relies on nix::unistd::getpid: returns the calling process's ID.
/// The value depends on the process, so nothing is promised of it.
#[verifier::external_body]
fn current_pid() -> i32 {
    nix::unistd::getpid().as_raw()
}

/// Relies on nix::unistd::getpgrp: returns the calling process's group
/// ID. The value depends on the process, so nothing is promised of it.
#[verifier::external_body]
fn current_pgrp() -> i32 {
    nix::unistd::getpgrp().as_raw()
}

/// Relies on nix::unistd::setsid: asks the OS for a new session.
/// Returns the new session's ID on success and nothing on failure; the
/// OS grants the request exactly when the caller is not a process-group
/// leader, which no contract here can see, so nothing is promised of
/// the outcome.
#[verifier::external_body]
fn setsid_raw() -> Option<i32> {
    match nix::unistd::setsid() {
        Ok(sid) => Some(sid.as_raw()),
        Err(_) => None,
    }
}

/// Reports whether the calling process is the leader of its own process
/// group: its process ID equals its process-group ID. A pure query; the
/// two underlying calls cannot fail.
pub fn is_process_group_leader() -> bool {
    let pid = current_pid();
    let pgrp = current_pgrp();
    pid == pgrp
}

/// Requests a new session from the OS; true exactly when the OS granted
/// one, after which the process leads a brand-new session and group.
/// The phase that follows is decided by the verified transition on this
/// result.
pub fn create_new_session() -> bool {
    let sid = setsid_raw();
    sid.is_some()
}

} // verus!
