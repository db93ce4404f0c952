use rty::app::components::{CmdExecutor, PrintableCmdNotFound, SharedState, WaitSec};
use rty::app::{run, App, AppState, Component, RetryResult, StateMachine, StepEvent, Transition};
use rty::config::Config;
use rty::exec::ExecutionResult;

fn config(command: &str, count: Option<usize>, interval_ms: u64) -> Config {
    Config { command: command.to_string(), count, interval_ms }
}

fn executing(count: usize, limit: Option<usize>, interval_ms: u64) -> App {
    let cfg = config("dummy", limit, interval_ms);
    App {
        state: AppState::ExecuteCommand(SharedState {
            inner: PrintableCmdNotFound {
                command: cfg.command.clone(),
                inner: CmdExecutor { command: cfg.command.clone() },
            },
            config: cfg,
        }),
        count,
        limit,
    }
}

fn sleeping(count: usize, limit: Option<usize>, interval_ms: u64) -> App {
    let cfg = config("dummy", limit, interval_ms);
    App {
        state: AppState::Sleep(SharedState {
            inner: WaitSec { millis: cfg.interval_ms },
            config: cfg,
        }),
        count,
        limit,
    }
}

#[test]
fn exec_cmd_to_done_with_success() {
    let app = executing(0, None, 0);

    assert!(matches!(
        app.handle(StepEvent::Completed(ExecutionResult::Exited(0))),
        Transition::Done(RetryResult::Succeeded)
    ));
}

#[test]
fn exec_cmd_to_sleep_without_limit() {
    let app = executing(0, None, 0);

    let next = app.handle(StepEvent::Completed(ExecutionResult::Exited(1)));

    assert!(match &next {
        Transition::Next(a) => matches!(a.state, AppState::Sleep(_)),
        _ => false,
    });

    assert_eq!(
        match next {
            Transition::Next(a) => Some(a.count),
            _ => None,
        },
        Some(1)
    );
}

#[test]
fn exec_cmd_to_sleep_with_limit() {
    let app = executing(0, Some(2), 0);

    let next = app.handle(StepEvent::Completed(ExecutionResult::Exited(1)));

    assert!(match &next {
        Transition::Next(a) => matches!(a.state, AppState::Sleep(_)),
        _ => false,
    });

    assert_eq!(
        match next {
            Transition::Next(a) => Some(a.count),
            _ => None,
        },
        Some(1)
    );
}

#[test]
fn exec_cmd_to_done_with_fail() {
    let app = executing(0, Some(1), 0);

    assert!(matches!(
        app.handle(StepEvent::Completed(ExecutionResult::Exited(1))),
        Transition::Done(RetryResult::Failure)
    ));
}

#[test]
fn sleep_to_exec() {
    let app = sleeping(0, Some(1), 0);

    assert!(match app.handle(StepEvent::Waited) {
        Transition::Next(a) => matches!(a.state, AppState::ExecuteCommand(_)),
        _ => false,
    });
}

#[test]
fn new_app_starts_executing_with_zero_attempts() {
    let app = App::new(config("echo abc", Some(2), 500));

    assert_eq!(app.count, 0);
    assert_eq!(app.limit, Some(2));
    match &app.state {
        AppState::ExecuteCommand(step) => {
            assert_eq!(step.config.command, "echo abc");
            assert_eq!(step.config.interval_ms, 500);
            assert_eq!(step.inner.command, "echo abc");
            assert_eq!(step.inner.inner.command, "echo abc");
        }
        AppState::Sleep(_) => panic!("a fresh engine must start in the executing phase"),
    }
}

#[test]
fn success_on_first_attempt_with_budget_left() {
    let app = App::new(config("echo abc", Some(2), 0));
    let results = vec![ExecutionResult::Exited(0)];

    assert_eq!(run(app, &results), (Some(RetryResult::Succeeded), 1));
}

#[test]
fn success_ignores_prior_failed_attempts() {
    let app = App::new(config("flaky", Some(3), 0));
    let results = vec![ExecutionResult::Exited(1), ExecutionResult::Exited(0)];

    assert_eq!(run(app, &results), (Some(RetryResult::Succeeded), 2));
}

#[test]
fn failure_after_exactly_two_attempts() {
    let app = App::new(config("dummy", Some(2), 0));
    let results = vec![ExecutionResult::StartFailure, ExecutionResult::StartFailure];

    assert_eq!(run(app, &results), (Some(RetryResult::Failure), 2));
}

#[test]
fn limit_of_one_fails_without_entering_wait() {
    let app = App::new(config("dummy", Some(1), 0));

    assert!(matches!(
        app.handle(StepEvent::Completed(ExecutionResult::StartFailure)),
        Transition::Done(RetryResult::Failure)
    ));

    let again = App::new(config("dummy", Some(1), 0));
    let results = vec![ExecutionResult::StartFailure];
    assert_eq!(run(again, &results), (Some(RetryResult::Failure), 1));
}

#[test]
fn unbounded_run_reaches_no_verdict() {
    let app = App::new(config("dummy", None, 0));
    let results = vec![ExecutionResult::Exited(1); 50];

    assert_eq!(run(app, &results), (None, 50));
}

#[test]
fn nonzero_and_negative_exit_codes_are_failures() {
    assert!(ExecutionResult::Exited(0).is_success());
    assert!(!ExecutionResult::Exited(1).is_success());
    assert!(!ExecutionResult::Exited(-1).is_success());
    assert!(!ExecutionResult::StartFailure.is_success());
}

#[test]
fn interval_is_carried_into_the_waiting_step() {
    let app = App::new(config("dummy", Some(2), 500));

    match app.handle(StepEvent::Completed(ExecutionResult::StartFailure)) {
        Transition::Next(a) => match &a.state {
            AppState::Sleep(step) => {
                assert_eq!(step.inner.millis, 500);
                assert_eq!(step.config.interval_ms, 500);
            }
            AppState::ExecuteCommand(_) => panic!("a failed attempt with budget left must wait"),
        },
        Transition::Done(_) => panic!("a failed attempt with budget left must not terminate"),
    }
}

#[test]
fn conversion_round_trip_preserves_command_and_config() {
    let app = App::new(config("echo abc", Some(3), 250));
    let exec_step = match app.state {
        AppState::ExecuteCommand(step) => step,
        AppState::Sleep(_) => panic!("a fresh engine must start in the executing phase"),
    };

    let wait_step = exec_step.into_sleep();
    assert_eq!(wait_step.inner.millis, 250);
    assert_eq!(wait_step.config.command, "echo abc");

    let back = wait_step.into_execute();
    assert_eq!(back.config.command, "echo abc");
    assert_eq!(back.config.count, Some(3));
    assert_eq!(back.config.interval_ms, 250);
    assert_eq!(back.inner.command, "echo abc");
    assert_eq!(back.inner.inner.command, "echo abc");
}

#[test]
fn decorator_returns_the_result_unchanged() {
    let step = PrintableCmdNotFound {
        command: "dummy".to_string(),
        inner: CmdExecutor { command: "dummy".to_string() },
    };

    assert_eq!(step.handle(ExecutionResult::Exited(3)), ExecutionResult::Exited(3));
    assert_eq!(step.handle(ExecutionResult::Exited(0)), ExecutionResult::Exited(0));
    assert_eq!(step.handle(ExecutionResult::StartFailure), ExecutionResult::StartFailure);
}
