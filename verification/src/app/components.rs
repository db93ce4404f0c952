//! The two step kinds the engine alternates between, the envelope that
//! threads the shared configuration through both, and the diagnostic
//! decorator that reports a command that could not be started.

use vstd::prelude::*;
use vstd::string::*;
use std::io::Write;

use crate::config::Config;
use crate::exec::ExecutionResult;
use crate::app::Component;

verus! {

/// State of the executing step: the command line to run once.
pub struct CmdExecutor {
    pub command: String,
}

/// State of the waiting step: how long to suspend between two attempts,
/// in milliseconds.
pub struct WaitSec {
    pub millis: u64,
}

/// Decorator around the raw executing step. It never alters the execution
/// result it is handed; its only effect is a diagnostic line on standard
/// error when the result signals a start failure.
pub struct PrintableCmdNotFound<C> {
    pub command: String,
    pub inner: C,
}

/// Envelope that carries the immutable per-run configuration alongside the
/// state of the current phase, so converting one step kind into the other
/// never re-derives configuration from scratch.
pub struct SharedState<C> {
    pub config: Config,
    pub inner: C,
}

/// The executing phase's step: diagnostics-decorated command execution with
/// the shared configuration attached.
pub type ExecuteStep = SharedState<PrintableCmdNotFound<CmdExecutor>>;

/// The waiting phase's step: the timed delay with the shared configuration
/// attached.
pub type SleepStep = SharedState<WaitSec>;

/// The diagnostic line for a command that could not be started.
pub open spec fn not_found_message(command: Seq<char>) -> Seq<char> {
    "retry: command not found '"@ + command + "'"@
}

/// Builds the diagnostic line for a command that could not be started.
pub fn render_not_found(command: &str) -> (line: String)
    ensures
        line@ == not_found_message(command@),
{
    let mut line = String::from_str("retry: command not found '");
    line.append(command);
    line.append("'");
    line
}

/// Relies on `std::io::Write::write_fmt`, reached through the `writeln`
/// macro on `std::io::stderr`: writes the given text followed by a newline
/// to the standard error stream. A write error is ignored, as it is by
/// `eprintln`.
#[verifier::external_body]
fn emit_stderr_line(line: &str) {
    let _ = writeln!(std::io::stderr(), "{}", line);
}

impl<C> Component for PrintableCmdNotFound<C> {
    type Input = ExecutionResult;

    type Output = ExecutionResult;

    open spec fn response(&self, input: ExecutionResult) -> ExecutionResult {
        input
    }

    fn handle(&self, input: ExecutionResult) -> (out: ExecutionResult) {
        if let ExecutionResult::StartFailure = input {
            let line = render_not_found(self.command.as_str());
            emit_stderr_line(line.as_str());
        }
        input
    }
}

/// What converting the executing step into the waiting step yields: the
/// shared configuration unchanged, and the delay taken from it.
pub open spec fn to_sleep_spec(step: ExecuteStep) -> SleepStep {
    SharedState { config: step.config, inner: WaitSec { millis: step.config.interval_ms } }
}

/// What converting the waiting step back into the executing step yields:
/// the shared configuration unchanged, and the command taken from it.
pub open spec fn to_execute_spec(step: SleepStep) -> ExecuteStep {
    SharedState {
        config: step.config,
        inner: PrintableCmdNotFound {
            command: step.config.command,
            inner: CmdExecutor { command: step.config.command },
        },
    }
}

impl SharedState<PrintableCmdNotFound<CmdExecutor>> {
    /// The command threaded through the step agrees with the shared
    /// configuration.
    pub open spec fn wf(&self) -> bool {
        &&& self.inner.command == self.config.command
        &&& self.inner.inner.command == self.config.command
    }

    /// Converts the completed executing step into the waiting step.
    pub fn into_sleep(self) -> (next: SleepStep)
        ensures
            next == to_sleep_spec(self),
    {
        SharedState { inner: WaitSec { millis: self.config.interval_ms }, config: self.config }
    }
}

impl SharedState<WaitSec> {
    /// Converts the completed waiting step back into the executing step.
    pub fn into_execute(self) -> (next: ExecuteStep)
        ensures
            next == to_execute_spec(self),
            next.wf(),
    {
        let command = self.config.command.clone();
        let executor = CmdExecutor { command: self.config.command.clone() };
        SharedState {
            inner: PrintableCmdNotFound { command, inner: executor },
            config: self.config,
        }
    }
}

/// Converting an executing step into a waiting step and back yields the
/// executing step unchanged: the command string and the shared
/// configuration survive the round trip.
pub proof fn lemma_step_conversion_round_trip(step: ExecuteStep)
    requires
        step.wf(),
    ensures
        to_execute_spec(to_sleep_spec(step)) == step,
{
}

} // verus!
