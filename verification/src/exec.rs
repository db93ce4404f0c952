//! Process-execution surface: the outcome of running the command once, and
//! the parsing of a command line into a program name and its arguments.

pub mod child_process;

use vstd::prelude::*;

verus! {

/// Outcome of one attempt to run the command.
///
/// `Exited` carries the numeric exit code of a process that ran to normal
/// termination. `StartFailure` stands for a process that could not be
/// launched at all (program missing, exec error) or that terminated
/// abnormally without a reportable exit code; both conditions count as a
/// failed attempt, and `StartFailure` additionally triggers a diagnostic.
#[derive(Clone, Copy, Debug, PartialEq, Eq, Structural)]
pub enum ExecutionResult {
    Exited(i32),
    StartFailure,
}

/// The one success signal: a clean exit with code exactly zero. Any other
/// exit code, and any start failure, is a failed attempt.
pub open spec fn exec_success(r: ExecutionResult) -> bool {
    r matches ExecutionResult::Exited(code) && code == 0
}

impl ExecutionResult {
    /// Executable counterpart of [`exec_success`].
    pub fn is_success(&self) -> (b: bool)
        ensures
            b == exec_success(*self),
    {
        match self {
            ExecutionResult::Exited(code) => *code == 0,
            ExecutionResult::StartFailure => false,
        }
    }
}

} // verus!
