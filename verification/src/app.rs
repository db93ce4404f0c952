//! The retry engine: a state machine that alternates between an executing
//! phase and a waiting phase until the command succeeds or the attempt
//! budget is exhausted.

pub mod components;

use vstd::prelude::*;

use crate::config::Config;
use crate::exec::{ExecutionResult, exec_success};
use components::{
    CmdExecutor, ExecuteStep, PrintableCmdNotFound, SharedState, SleepStep, to_execute_spec,
    to_sleep_spec,
};

verus! {

/// A step the engine can run: it consumes the outcome of the phase's
/// outside work and yields the step's answer, which must be exactly what
/// [`Component::response`] says it is.
pub trait Component {
    type Input;

    type Output;

    /// What the step answers for a given outcome of its outside work.
    spec fn response(&self, input: Self::Input) -> Self::Output;

    fn handle(&self, input: Self::Input) -> (out: Self::Output)
        ensures
            out == self.response(input),
    ;
}

/// Terminal verdict of a run.
#[derive(Clone, Copy, Debug, PartialEq, Eq, Structural)]
pub enum RetryResult {
    Succeeded,
    Failure,
}

/// What one step of the state machine decides: either the machine to run
/// next, or the terminal verdict.
pub enum Transition<T> {
    Next(T),
    Done(RetryResult),
}

/// The outcome of the current phase's outside work, handed back to the
/// engine: the result of one command execution, or the completed delay
/// (waiting has no failure mode).
#[derive(Clone, Copy, Debug, PartialEq, Eq, Structural)]
pub enum StepEvent {
    Completed(ExecutionResult),
    Waited,
}

/// A state machine driven from outside: the driver performs the current
/// phase's outside work, hands the outcome in as a [`StepEvent`], and is
/// told the transition, which must be exactly what
/// [`StateMachine::next_spec`] says it is.
pub trait StateMachine: Sized {
    /// Which events the machine accepts in its current state.
    spec fn ready_for(&self, event: StepEvent) -> bool;

    /// The transition the machine takes on the given event.
    spec fn next_spec(self, event: StepEvent) -> Transition<Self>;

    fn handle(self, event: StepEvent) -> (t: Transition<Self>)
        requires
            self.ready_for(event),
        ensures
            t == self.next_spec(event),
    ;
}

/// The engine's current phase and that phase's step.
pub enum AppState {
    ExecuteCommand(ExecuteStep),
    Sleep(SleepStep),
}

/// The retry engine: the current phase, the number of failed attempts so
/// far, and the optional attempt limit.
pub struct App {
    pub state: AppState,
    pub count: usize,
    pub limit: Option<usize>,
}

/// The engine a fresh run starts with: executing phase, no failed attempt
/// yet, the limit taken from the configuration.
pub open spec fn init_spec(config: Config) -> App {
    App {
        state: AppState::ExecuteCommand(
            SharedState {
                config,
                inner: PrintableCmdNotFound {
                    command: config.command,
                    inner: CmdExecutor { command: config.command },
                },
            },
        ),
        count: 0,
        limit: config.count,
    }
}

impl App {
    /// The shared configuration carried by the current phase's step.
    pub open spec fn config(&self) -> Config {
        match self.state {
            AppState::ExecuteCommand(step) => step.config,
            AppState::Sleep(step) => step.config,
        }
    }

    /// The engine's invariant: the attempt count leaves room for one more
    /// failed attempt (it stays below the limit when one is present), and
    /// the executing step's command agrees with the shared configuration.
    pub open spec fn wf(&self) -> bool {
        &&& match self.limit {
            Some(l) => self.count < l,
            None => self.count < usize::MAX,
        }
        &&& self.state matches AppState::ExecuteCommand(step) ==> step.wf()
    }

    pub fn new(config: Config) -> (app: App)
        requires
            config.wf(),
        ensures
            app == init_spec(config),
            app.wf(),
    {
        let limit = config.count;
        let command = config.command.clone();
        let executor = CmdExecutor { command: config.command.clone() };
        App {
            state: AppState::ExecuteCommand(
                SharedState { inner: PrintableCmdNotFound { command, inner: executor }, config },
            ),
            count: 0,
            limit,
        }
    }
}

impl StateMachine for App {
    /// The executing phase expects an execution result; the waiting phase
    /// expects the completed delay.
    open spec fn ready_for(&self, event: StepEvent) -> bool {
        &&& self.wf()
        &&& (self.state is ExecuteCommand) <==> (event is Completed)
    }

    /// The transition relation of the retry engine.
    ///
    /// In the executing phase: an exit code of exactly zero terminates with
    /// `Succeeded` at once; any other outcome counts one more failed
    /// attempt, terminates with `Failure` when that attempt reaches the
    /// limit, and otherwise converts the step into the waiting phase. In
    /// the waiting phase: the engine converts the step back into the
    /// executing phase, the attempt count carried forward unchanged.
    open spec fn next_spec(self, event: StepEvent) -> Transition<App> {
        match (self.state, event) {
            (AppState::ExecuteCommand(step), StepEvent::Completed(result)) => {
                if exec_success(result) {
                    Transition::Done(RetryResult::Succeeded)
                } else if self.limit matches Some(l) && self.count + 1 >= l {
                    Transition::Done(RetryResult::Failure)
                } else {
                    Transition::Next(
                        App {
                            state: AppState::Sleep(to_sleep_spec(step)),
                            count: (self.count + 1) as usize,
                            limit: self.limit,
                        },
                    )
                }
            },
            (AppState::Sleep(step), StepEvent::Waited) => Transition::Next(
                App {
                    state: AppState::ExecuteCommand(to_execute_spec(step)),
                    count: self.count,
                    limit: self.limit,
                },
            ),
            // no other pairing of phase and event is accepted: see `ready_for`
            _ => Transition::Done(RetryResult::Failure),
        }
    }

    fn handle(self, event: StepEvent) -> (t: Transition<App>) {
        let App { state, count, limit } = self;
        match (state, event) {
            (AppState::ExecuteCommand(step), StepEvent::Completed(result)) => {
                let result = step.inner.handle(result);
                if result.is_success() {
                    Transition::Done(RetryResult::Succeeded)
                } else {
                    let next_count = count + 1;
                    match limit {
                        Some(l) if next_count >= l => Transition::Done(RetryResult::Failure),
                        _ => Transition::Next(
                            App {
                                state: AppState::Sleep(step.into_sleep()),
                                count: next_count,
                                limit,
                            },
                        ),
                    }
                }
            },
            (AppState::Sleep(step), StepEvent::Waited) => Transition::Next(
                App { state: AppState::ExecuteCommand(step.into_execute()), count, limit },
            ),
            (AppState::ExecuteCommand(_), StepEvent::Waited) => vstd::pervasive::unreached(),
            (AppState::Sleep(_), StepEvent::Completed(_)) => vstd::pervasive::unreached(),
        }
    }
}

/// What a run of the engine comes to, starting from the executing phase
/// with `count` failed attempts behind it, when the successive command
/// executions yield `results`: the verdict, if the machine terminates
/// before the results run out, and the number of execution attempts it
/// performs. The waiting phases in between complete unconditionally and
/// consume no result.
pub open spec fn run_model(
    limit: Option<usize>,
    count: int,
    results: Seq<ExecutionResult>,
) -> (Option<RetryResult>, int)
    decreases results.len(),
{
    if results.len() == 0 {
        (None, 0)
    } else if exec_success(results[0]) {
        (Some(RetryResult::Succeeded), 1)
    } else if limit matches Some(l) && count + 1 >= l {
        (Some(RetryResult::Failure), 1)
    } else {
        let tail = run_model(limit, count + 1, results.skip(1));
        (tail.0, tail.1 + 1)
    }
}

/// Drives the engine over a given sequence of execution results: each
/// executing phase consumes the next result, each waiting phase completes
/// at once. Returns the verdict, or `None` when the results ran out first,
/// together with the number of attempts performed.
#[verifier::loop_isolation(false)]
pub fn run(app: App, results: &Vec<ExecutionResult>) -> (r: (Option<RetryResult>, usize))
    requires
        app.wf(),
        app.state is ExecuteCommand,
        app.count + results@.len() < usize::MAX,
    ensures
        ({
            let m = run_model(app.limit, app.count as int, results@);
            r.0 == m.0 && r.1 == m.1
        }),
{
    let ghost limit0 = app.limit;
    let ghost count0 = app.count as int;
    let ghost all = results@;
    let mut machine = app;
    let mut i: usize = 0;
    proof {
        assert(all.skip(0) =~= all);
    }
    while i < results.len()
        invariant
            machine.wf(),
            machine.state is ExecuteCommand,
            machine.limit == limit0,
            machine.count == count0 + i,
            i <= all.len(),
            results@ == all,
            count0 + all.len() < usize::MAX,
            ({
                let rest = run_model(limit0, machine.count as int, all.skip(i as int));
                run_model(limit0, count0, all) == (rest.0, rest.1 + i)
            }),
        decreases all.len() - i,
    {
        proof {
            assert(all.skip(i as int)[0] == all[i as int]);
        }
        let result = results[i];
        match machine.handle(StepEvent::Completed(result)) {
            Transition::Done(verdict) => {
                return (Some(verdict), i + 1);
            },
            Transition::Next(next) => {
                machine = match next.handle(StepEvent::Waited) {
                    Transition::Next(resumed) => resumed,
                    Transition::Done(_) => vstd::pervasive::unreached(),
                };
            },
        }
        proof {
            assert(all.skip(i as int).skip(1) =~= all.skip(i + 1));
        }
        i = i + 1;
    }
    (None, i)
}

/// A transition that continues the run flips the phase, keeps the limit
/// and the shared configuration unchanged, and touches the attempt count
/// exactly as the phase dictates: a failed execution counts one more
/// attempt, a completed wait carries the count forward unchanged.
pub proof fn lemma_transition_preserves_shared_state(app: App, event: StepEvent)
    requires
        app.ready_for(event),
    ensures
        app.next_spec(event) matches Transition::Next(a) ==> {
            &&& (a.state is Sleep <==> app.state is ExecuteCommand)
            &&& a.limit == app.limit
            &&& a.config() == app.config()
            &&& app.state is ExecuteCommand ==> a.count == app.count + 1
            &&& app.state is Sleep ==> a.count == app.count
        },
{
}

/// The attempt count never exceeds the limit: whatever event a well-formed
/// machine with a limit handles, a machine it hands back to keep running
/// still has its count strictly below that limit.
pub proof fn lemma_count_never_exceeds_limit(app: App, event: StepEvent, l: usize)
    requires
        app.ready_for(event),
        app.limit == Some(l),
    ensures
        app.next_spec(event) matches Transition::Next(a) ==> a.count < l && a.wf(),
{
}

/// An exit code of exactly zero terminates the machine with `Succeeded`
/// at once, whatever the limit and whatever count of failed attempts came
/// before.
pub proof fn lemma_success_is_terminal(app: App, result: ExecutionResult)
    requires
        app.state is ExecuteCommand,
        exec_success(result),
    ensures
        app.next_spec(StepEvent::Completed(result)) == Transition::<App>::Done(
            RetryResult::Succeeded,
        ),
{
}

/// With a limit of `n` and `count` failed attempts already behind it, the
/// engine performs at most `n - count` further execution attempts before
/// any verdict, and when the verdict is `Failure` it has performed exactly
/// the `n - count` attempts the budget still allowed.
pub proof fn lemma_attempts_bounded(n: usize, count: int, results: Seq<ExecutionResult>)
    requires
        0 <= count < n,
    ensures
        ({
            let m = run_model(Some(n), count, results);
            &&& m.0 is Some ==> m.1 <= n - count
            &&& m.0 == Some(RetryResult::Failure) ==> count + m.1 == n
        }),
    decreases results.len(),
{
    if results.len() == 0 {
    } else if exec_success(results[0]) {
    } else if count + 1 >= n {
    } else {
        lemma_attempts_bounded(n, count + 1, results.skip(1));
    }
}

/// The first exit code of exactly zero terminates the run with
/// `Succeeded` after that one attempt, whatever the limit and whatever
/// count of failed attempts came before.
pub proof fn lemma_immediate_success(
    limit: Option<usize>,
    count: int,
    results: Seq<ExecutionResult>,
)
    requires
        results.len() > 0,
        exec_success(results[0]),
    ensures
        run_model(limit, count, results) == (Some(RetryResult::Succeeded), 1int),
{
}

/// With a limit of `n` and enough failing results on hand, the engine
/// does reach the `Failure` verdict, after exactly the `n - count`
/// attempts its budget still allowed.
pub proof fn lemma_always_failing_exhausts_budget(
    n: usize,
    count: int,
    results: Seq<ExecutionResult>,
)
    requires
        0 <= count < n,
        results.len() >= n - count,
        forall|i: int| 0 <= i < results.len() ==> !exec_success(#[trigger] results[i]),
    ensures
        run_model(Some(n), count, results) == (Some(RetryResult::Failure), n - count),
    decreases results.len(),
{
    if count + 1 >= n {
    } else {
        assert(forall|i: int|
            0 <= i < results.skip(1).len() ==> !exec_success(#[trigger] results.skip(1)[i]));
        lemma_always_failing_exhausts_budget(n, count + 1, results.skip(1));
    }
}

/// Without a limit, a command that keeps failing never brings the engine
/// to a terminal state: every execution result is consumed, no verdict is
/// reached, and the engine keeps alternating between its two phases.
pub proof fn lemma_unbounded_never_terminates(count: int, results: Seq<ExecutionResult>)
    requires
        forall|i: int| 0 <= i < results.len() ==> !exec_success(#[trigger] results[i]),
    ensures
        run_model(None, count, results) == (None::<RetryResult>, results.len() as int),
    decreases results.len(),
{
    if results.len() == 0 {
    } else {
        assert(!exec_success(results[0]));
        lemma_unbounded_never_terminates(count + 1, results.skip(1));
    }
}

} // verus!
