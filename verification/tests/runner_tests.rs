use grid_rest_api::{
    loop_report, Action, BindFailure, Event, Phase, Runner, RunnerState, RuntimeError, StartupError,
};

fn feed(runner: &mut Runner, events: &[Event]) -> Vec<Action> {
    let mut actions = Vec::new();
    for event in events {
        if let Some(action) = runner.step(*event) {
            actions.push(action);
        }
    }
    actions
}

fn all_events() -> Vec<Event> {
    vec![
        Event::Spawned,
        Event::Bound,
        Event::BindFailed(BindFailure::AddressInUse),
        Event::HandedOff,
        Event::HandoffFailed,
        Event::StopSignal,
        Event::Drained,
        Event::LoopFailed,
    ]
}

#[test]
fn new_runner_is_unstarted() {
    let runner = Runner::new();
    assert_eq!(runner.state(), RunnerState::Unstarted);
    assert_eq!(runner.phase(), Phase::Unstarted);
}

#[test]
fn clean_run_goes_through_every_phase() {
    let mut runner = Runner::new();
    assert_eq!(runner.step(Event::Spawned), Some(Action::Bind));
    assert_eq!(runner.phase(), Phase::Binding);
    assert_eq!(runner.step(Event::Bound), Some(Action::HandOffSwitch));
    assert_eq!(runner.phase(), Phase::Running);
    assert_eq!(runner.state(), RunnerState::HandingOff);
    assert_eq!(runner.step(Event::HandedOff), Some(Action::Serve));
    assert_eq!(runner.phase(), Phase::Running);
    assert_eq!(runner.state(), RunnerState::Serving);
    assert_eq!(runner.step(Event::StopSignal), Some(Action::Drain));
    assert_eq!(runner.phase(), Phase::Stopping);
    assert_eq!(runner.step(Event::Drained), Some(Action::Exit(Ok(()))));
    assert_eq!(runner.phase(), Phase::Stopped);
    assert_eq!(runner.state(), RunnerState::Finished);
}

#[test]
fn bind_failure_is_reported_and_ends_the_unit() {
    let mut runner = Runner::new();
    let actions = feed(
        &mut runner,
        &[Event::Spawned, Event::BindFailed(BindFailure::AddressInUse), Event::HandedOff],
    );
    assert_eq!(
        actions,
        vec![
            Action::Bind,
            Action::HandOffFailure(BindFailure::AddressInUse),
            Action::Exit(Err(RuntimeError::StartupFailed(StartupError::BindError(
                BindFailure::AddressInUse
            )))),
        ]
    );
    assert_eq!(runner.state(), RunnerState::Finished);
    assert_eq!(runner.phase(), Phase::Stopped);
}

#[test]
fn bind_failure_never_reaches_running() {
    let mut runner = Runner::new();
    assert_eq!(runner.step(Event::Spawned), Some(Action::Bind));
    assert_eq!(
        runner.step(Event::BindFailed(BindFailure::PermissionDenied)),
        Some(Action::HandOffFailure(BindFailure::PermissionDenied))
    );
    assert_eq!(runner.state(), RunnerState::Reporting(BindFailure::PermissionDenied));
    assert_eq!(runner.phase(), Phase::Stopped);
    assert_eq!(runner.step(Event::Bound), None);
    assert_eq!(runner.step(Event::StopSignal), None);
    assert_eq!(runner.phase(), Phase::Stopped);
}

#[test]
fn bind_failure_ends_the_unit_even_if_nobody_listens() {
    let mut runner = Runner::new();
    let actions = feed(
        &mut runner,
        &[Event::Spawned, Event::BindFailed(BindFailure::InvalidAddress), Event::HandoffFailed],
    );
    assert_eq!(
        actions[2],
        Action::Exit(Err(RuntimeError::StartupFailed(StartupError::BindError(
            BindFailure::InvalidAddress
        ))))
    );
    assert_eq!(runner.state(), RunnerState::Finished);
}

#[test]
fn failed_handoff_ends_the_unit_without_serving() {
    let mut runner = Runner::new();
    let actions = feed(&mut runner, &[Event::Spawned, Event::Bound, Event::HandoffFailed]);
    assert_eq!(
        actions,
        vec![
            Action::Bind,
            Action::HandOffSwitch,
            Action::Exit(Err(RuntimeError::StartupFailed(StartupError::HandoffError))),
        ]
    );
    assert_eq!(runner.phase(), Phase::Stopped);
}

#[test]
fn loop_failure_while_serving_is_an_abnormal_exit() {
    let mut runner = Runner::new();
    let actions = feed(
        &mut runner,
        &[Event::Spawned, Event::Bound, Event::HandedOff, Event::LoopFailed],
    );
    assert_eq!(actions[3], Action::Exit(Err(RuntimeError::AbnormalExit)));
    assert_eq!(runner.state(), RunnerState::Finished);
}

#[test]
fn loop_failure_while_draining_is_an_abnormal_exit() {
    let mut runner = Runner::new();
    let actions = feed(
        &mut runner,
        &[Event::Spawned, Event::Bound, Event::HandedOff, Event::StopSignal, Event::LoopFailed],
    );
    assert_eq!(actions[4], Action::Exit(Err(RuntimeError::AbnormalExit)));
    assert_eq!(runner.phase(), Phase::Stopped);
}

#[test]
fn unexpected_event_changes_nothing() {
    let mut runner = Runner::new();
    for event in all_events() {
        if event != Event::Spawned {
            assert_eq!(runner.step(event), None);
            assert_eq!(runner.state(), RunnerState::Unstarted);
        }
    }
    assert_eq!(runner.step(Event::Spawned), Some(Action::Bind));
    assert_eq!(runner.step(Event::Spawned), None);
    assert_eq!(runner.state(), RunnerState::Binding);
}

#[test]
fn finished_runner_takes_no_event() {
    let mut runner = Runner::new();
    feed(
        &mut runner,
        &[Event::Spawned, Event::Bound, Event::HandedOff, Event::StopSignal, Event::Drained],
    );
    for event in all_events() {
        assert_eq!(runner.step(event), None);
        assert_eq!(runner.state(), RunnerState::Finished);
    }
}

#[test]
fn stop_signal_before_the_handoff_is_not_taken() {
    let mut runner = Runner::new();
    feed(&mut runner, &[Event::Spawned, Event::Bound]);
    assert_eq!(runner.step(Event::StopSignal), None);
    assert_eq!(runner.state(), RunnerState::HandingOff);
}

#[test]
fn channel_is_used_at_most_once_in_any_run() {
    let events = all_events();
    let n = events.len();
    // every run of three events, then a clean run on top
    for a in 0..n {
        for b in 0..n {
            for c in 0..n {
                let mut runner = Runner::new();
                let mut actions = feed(&mut runner, &[events[a], events[b], events[c]]);
                actions.extend(feed(
                    &mut runner,
                    &[
                        Event::Spawned,
                        Event::Bound,
                        Event::HandedOff,
                        Event::StopSignal,
                        Event::Drained,
                    ],
                ));
                let sends = actions
                    .iter()
                    .filter(|action| {
                        matches!(action, Action::HandOffSwitch | Action::HandOffFailure(_))
                    })
                    .count();
                assert!(sends <= 1);
                assert!(actions.len() <= 5);
            }
        }
    }
}

#[test]
fn loop_that_returns_zero_was_told_to_stop() {
    assert_eq!(loop_report(0), Event::StopSignal);
}

#[test]
fn loop_that_returns_another_code_has_failed() {
    assert_eq!(loop_report(1), Event::LoopFailed);
    assert_eq!(loop_report(-1), Event::LoopFailed);
    assert_eq!(loop_report(i32::MAX), Event::LoopFailed);
    assert_eq!(loop_report(i32::MIN), Event::LoopFailed);
}

#[test]
fn repeated_stop_signal_changes_nothing() {
    let mut runner = Runner::new();
    let actions = feed(
        &mut runner,
        &[
            Event::Spawned,
            Event::Bound,
            Event::HandedOff,
            Event::StopSignal,
            Event::StopSignal,
            Event::Drained,
            Event::StopSignal,
        ],
    );
    assert_eq!(
        actions,
        vec![
            Action::Bind,
            Action::HandOffSwitch,
            Action::Serve,
            Action::Drain,
            Action::Exit(Ok(())),
        ]
    );
    assert_eq!(runner.state(), RunnerState::Finished);
    assert_eq!(runner.phase(), Phase::Stopped);
}
