//! Tests of the OS probes against the real process state. They change
//! the test process's session, so they stand alone in this file, as a
//! single test with a fixed order.

use session_launcher::create_new_session;
use session_launcher::is_process_group_leader;

#[test]
fn probes_follow_the_process_state() {
    let pid = nix::unistd::getpid().as_raw();
    let pgrp = nix::unistd::getpgrp().as_raw();
    assert_eq!(is_process_group_leader(), pid == pgrp);

    if pid != pgrp {
        // Not a group leader: the OS must grant a new session.
        assert!(create_new_session());
    }

    // Either way the process now leads its own group, so the leadership
    // check reports true and a further session request must fail.
    assert!(is_process_group_leader());
    assert!(!create_new_session());
}
