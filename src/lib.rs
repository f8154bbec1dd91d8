//! Builds and classifies one remote command run through an external SSH client.
//!
//! The library holds the decisions: which process to start for a platform and a
//! credential, and how what the process did maps to an outcome. Starting the
//! process, waiting on it and reading the terminal are left to the caller.

pub mod invocation;
pub mod outcome;
pub mod session;

pub use invocation::{build_invocation, build_ssh_command, resolve_platform, ClientKind, Invocation, Platform, DEFAULT_WINDOWS_SSH_EXE};
pub use outcome::{classify, Outcome, RunReport};
pub use session::{SshRequest, Step};
