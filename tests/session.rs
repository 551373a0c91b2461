use command_runner::invocation::Invocation;
use command_runner::outcome::{ExecutionResult, RunError};
use command_runner::session::{Action, Event, Phase, RunController};

fn exited(code: Option<i32>) -> ExecutionResult {
    ExecutionResult { code, stdout: Vec::new(), stderr: Vec::new() }
}

/// Feeds the events in order and collects the actions.
fn drive(mut c: RunController, events: Vec<Event>) -> (RunController, Vec<Action>) {
    let mut acts = Vec::new();
    for e in events {
        let (n, a) = c.step(e);
        c = n;
        acts.push(a);
    }
    (c, acts)
}

#[test]
fn empty_command_fails_before_spawn() {
    let c = RunController::new("", None, true, true, true);
    assert!(c.invocation.is_none());
    let (c, acts) = drive(c, vec![Event::Begin, Event::Delivered]);
    assert_eq!(acts, vec![Action::Finish(Err(RunError::InvalidCommand)), Action::Idle]);
    assert_eq!(c.phase, Phase::Finished);
}

#[test]
fn echo_hello_without_session() {
    let c = RunController::new("echo hello", None, false, false, false);
    let (c, acts) = drive(c, vec![Event::Begin]);
    assert_eq!(acts, vec![Action::Execute]);
    let inv = c.invocation.as_ref().unwrap();
    assert_eq!(inv.program, "echo");
    assert_eq!(inv.args, vec!["hello".to_string()]);
    let (c, a) = c.step(Event::Ran(Ok(ExecutionResult { code: Some(0), stdout: b"hello\n".to_vec(), stderr: Vec::new() })));
    match a {
        Action::Finish(Ok(r)) => {
            assert!(r.success());
            assert_eq!(r.stdout, b"hello\n".to_vec());
        }
        other => panic!("unexpected {:?}", other),
    }
    assert_eq!(c.phase, Phase::Finished);
}

#[test]
fn false_with_session_deactivates_and_returns_status() {
    let c = RunController::new("false", None, true, true, true);
    let (c, acts) = drive(
        c,
        vec![Event::Begin, Event::Delivered, Event::Delivered, Event::Delivered, Event::Ran(Ok(exited(Some(1)))), Event::Delivered],
    );
    assert_eq!(
        acts,
        vec![
            Action::SendStatus,
            Action::SendDone,
            Action::Activate,
            Action::Execute,
            Action::Deactivate,
            Action::Finish(Ok(exited(Some(1)))),
        ]
    );
    assert_eq!(c.phase, Phase::Finished);
    assert!(!exited(Some(1)).success());
}

#[test]
fn messages_are_optional() {
    let c = RunController::new("true", None, true, false, true);
    let (_, acts) = drive(c, vec![Event::Begin, Event::Delivered]);
    assert_eq!(acts, vec![Action::SendDone, Action::Activate]);
    let c = RunController::new("true", None, true, false, false);
    let (_, acts) = drive(c, vec![Event::Begin]);
    assert_eq!(acts, vec![Action::Activate]);
}

#[test]
fn failed_status_message_stops_before_activation() {
    let c = RunController::new("true", None, true, true, false);
    let (c, acts) = drive(c, vec![Event::Begin, Event::Undelivered("gone".to_string())]);
    assert_eq!(acts, vec![Action::SendStatus, Action::Finish(Err(RunError::Channel("gone".to_string())))]);
    assert_eq!(c.phase, Phase::Finished);
}

#[test]
fn failed_activation_ends_run_without_further_calls() {
    let c = RunController::new("true", None, true, false, false);
    let (c, acts) = drive(c, vec![Event::Begin, Event::Undelivered("gone".to_string()), Event::Delivered]);
    assert_eq!(
        acts,
        vec![Action::Activate, Action::Finish(Err(RunError::Channel("gone".to_string()))), Action::Idle]
    );
    assert_eq!(c.phase, Phase::Finished);
}

#[test]
fn failed_done_message_ends_run() {
    let c = RunController::new("true", None, true, true, true);
    let (_, acts) = drive(c, vec![Event::Begin, Event::Delivered, Event::Undelivered("gone".to_string())]);
    assert_eq!(
        acts,
        vec![Action::SendStatus, Action::SendDone, Action::Finish(Err(RunError::Channel("gone".to_string())))]
    );
}

#[test]
fn controller_from_parsed_invocation() {
    let inv = Invocation::parse("echo hi", None).unwrap();
    let c = RunController::with_invocation(Some(inv), false, false, false);
    let (_, a) = c.step(Event::Begin);
    assert_eq!(a, Action::Execute);
    let c = RunController::with_invocation(None, true, true, true);
    let (_, a) = c.step(Event::Begin);
    assert_eq!(a, Action::Finish(Err(RunError::InvalidCommand)));
}

#[test]
fn command_text_shown_on_failures_but_empty_command() {
    assert!(!RunError::InvalidCommand.shows_command());
    assert!(RunError::Spawn("x".to_string()).shows_command());
    assert!(RunError::Wait("x".to_string()).shows_command());
    assert!(RunError::Channel("x".to_string()).shows_command());
}

#[test]
fn spawn_error_still_deactivates() {
    let c = RunController::new("no-such-program", None, true, false, false);
    let (_, acts) = drive(
        c,
        vec![Event::Begin, Event::Delivered, Event::Ran(Err(RunError::Spawn("not found".to_string()))), Event::Delivered],
    );
    assert_eq!(
        acts,
        vec![
            Action::Activate,
            Action::Execute,
            Action::Deactivate,
            Action::Finish(Err(RunError::Spawn("not found".to_string()))),
        ]
    );
}

#[test]
fn failed_deactivation_after_success_is_channel_error() {
    let c = RunController::new("true", None, true, false, false);
    let (_, acts) = drive(
        c,
        vec![Event::Begin, Event::Delivered, Event::Ran(Ok(exited(Some(0)))), Event::Undelivered("closed".to_string())],
    );
    assert_eq!(acts[3], Action::Finish(Err(RunError::Channel("closed".to_string()))));
}

#[test]
fn failed_deactivation_after_failure_keeps_first_error() {
    let c = RunController::new("true", None, true, false, false);
    let (_, acts) = drive(
        c,
        vec![Event::Begin, Event::Delivered, Event::Ran(Err(RunError::Wait("lost".to_string()))), Event::Undelivered("closed".to_string())],
    );
    assert_eq!(acts[3], Action::Finish(Err(RunError::Wait("lost".to_string()))));
}

#[test]
fn exactly_one_deactivation_per_activation() {
    let c = RunController::new("sleep 5", Some("/tmp".to_string()), true, true, true);
    let (_, acts) = drive(
        c,
        vec![
            Event::Begin,
            Event::Delivered,
            Event::Delivered,
            Event::Delivered,
            Event::Delivered,
            Event::Ran(Ok(exited(Some(0)))),
            Event::Delivered,
            Event::Delivered,
            Event::Begin,
        ],
    );
    assert_eq!(acts.iter().filter(|a| **a == Action::Activate).count(), 1);
    assert_eq!(acts.iter().filter(|a| **a == Action::Deactivate).count(), 1);
    assert_eq!(acts[4], Action::Idle);
}

#[test]
fn unexpected_events_are_ignored() {
    let c = RunController::new("true", None, false, false, false);
    let (c, a) = c.step(Event::Delivered);
    assert_eq!(a, Action::Idle);
    assert_eq!(c.phase, Phase::Ready);
}

#[test]
fn working_directory_is_kept() {
    let c = RunController::new("pwd", Some("/var".to_string()), false, false, false);
    assert_eq!(c.invocation.unwrap().cwd, Some("/var".to_string()));
}

#[test]
fn success_depends_on_exit_code_only() {
    for show in [false, true] {
        let r = ExecutionResult::assemble(Some(0), b"c".to_vec(), Vec::new(), b"s".to_vec(), Vec::new(), show);
        assert!(r.success());
        assert_eq!(r.stdout, if show { b"s".to_vec() } else { b"c".to_vec() });
        let r = ExecutionResult::assemble(Some(1), Vec::new(), Vec::new(), Vec::new(), Vec::new(), show);
        assert!(!r.success());
        let r = ExecutionResult::assemble(None, Vec::new(), Vec::new(), Vec::new(), Vec::new(), show);
        assert!(!r.success());
    }
}
