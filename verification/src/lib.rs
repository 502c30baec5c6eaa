//! A verified core for a `setsid`-style session launcher.
//!
//! The launcher runs a target program in a new session, detached from
//! the invoking process group: it forks when needed (a process-group
//! leader cannot create a session), creates the session, and replaces
//! the process image with the target program, while the parent either
//! waits for the child's exit status or leaves at once.
//!
//! This crate verifies the part with actual control-flow subtlety: the
//! process-lifecycle state machine. The fork decision, the parent/child
//! role split, the wait-status decoding and exit-status propagation,
//! and the session/exec failure handling are verified functions in
//! [`machine`] and [`status`]. The OS calls themselves stand behind
//! trusted wrappers ([`sys`] and the status accessors); the fork, the
//! blocking wait and the exec, which verified code cannot perform, are
//! driven by a thin unverified shell that consults the state machine at
//! every branch point.

pub mod config;
pub mod machine;
pub mod status;
pub mod sys;

pub use config::ConfigError;
pub use config::LaunchConfig;
pub use config::validate_flags;
pub use machine::ForkReport;
pub use machine::Phase;
pub use machine::WaitDiagnostic;
pub use machine::should_fork;
pub use machine::step_after_fork;
pub use machine::step_after_session;
pub use machine::step_after_wait;
pub use machine::step_exec_failed;
pub use machine::step_start;
pub use status::ExitOutcome;
pub use status::decode_wait_status;
pub use sys::create_new_session;
pub use sys::is_process_group_leader;
