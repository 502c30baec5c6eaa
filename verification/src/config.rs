//! The resolved launch configuration and the flag validation that runs
//! before any process operation.

use vstd::prelude::*;

verus! {

/// A resolved launch configuration: the target program, its arguments,
/// and the two behavioural flags. It is built once per invocation by the
/// command-line layer and consumed immediately by the launcher.
pub struct LaunchConfig {
    /// Path of the program to run in the new session.
    pub program: String,
    /// Arguments passed through verbatim to the program.
    pub arguments: Vec<String>,
    /// Force a fork even when the process is not a group leader.
    pub force_fork: bool,
    /// After a fork, block and propagate the child's exit status.
    pub wait_for_child: bool,
}

/// A configuration error, detected before any process operation is
/// attempted; no partial side effects occur.
#[derive(PartialEq, Eq, Structural, Clone, Copy, Debug)]
pub enum ConfigError {
    /// Attaching a controlling terminal was requested, which is
    /// unsupported: the launcher refuses to run at all.
    CttyUnsupported,
}

/// Validates the flag set before any process logic runs: a request to
/// attach a controlling terminal is rejected outright, and the launcher
/// then exits with a failure status without forking or touching the
/// session.
pub fn validate_flags(ctty: bool) -> (r: Result<(), ConfigError>)
    ensures
        r is Ok <==> !ctty,
        ctty ==> r == Result::<(), ConfigError>::Err(ConfigError::CttyUnsupported),
{
    if ctty {
        Err(ConfigError::CttyUnsupported)
    } else {
        Ok(())
    }
}

} // verus!
