//! The normalized result of running one external OS command, and the
//! shape of a command invocation to run.

use vstd::prelude::*;

verus! {

/// What happened when one external OS command was run: whether it could
/// be started at all, whether it exited zero, and what it wrote to its
/// standard streams.  Built by the unverified shell, consumed by the
/// verified decision functions.
pub struct CommandOutcome {
    /// True exactly when the command was started and exited with status zero.
    pub succeeded: bool,
    /// Captured standard output, decoded to text.
    pub stdout: String,
    /// Captured standard error, decoded to text.
    pub stderr: String,
    /// Set when the executable could not be started at all
    /// (not installed, not on the search path, permission denied).
    pub invocation_error: Option<String>,
}

/// One external command to run: a program name and its argument list.
pub struct CommandLine {
    pub program: String,
    pub args: Vec<String>,
}

} // verus!
