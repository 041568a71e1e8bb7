//! What holds of every run of an execution unit, whatever it reports and in
//! whatever order.
//!
//! A run is a sequence of events fed to a runner one by one. Events that the
//! rules do not allow are answered with nothing and leave the state as it was.

use vstd::prelude::*;
use crate::error::{BindFailure, RuntimeError, StartupError};
use crate::runner::{transition, Action, Event, Phase, RunnerState};

verus! {

/// The state that a unit in `state` is in after it has reported `events`.
pub open spec fn state_after(state: RunnerState, events: Seq<Event>) -> RunnerState
    decreases events.len(),
{
    if events.len() == 0 {
        state
    } else {
        match transition(state, events[0]) {
            Some((next, _)) => state_after(next, events.drop_first()),
            None => state_after(state, events.drop_first()),
        }
    }
}

/// The actions that a unit in `state` is told to take while it reports
/// `events`, in order.
pub open spec fn actions_during(state: RunnerState, events: Seq<Event>) -> Seq<Action>
    decreases events.len(),
{
    if events.len() == 0 {
        Seq::empty()
    } else {
        match transition(state, events[0]) {
            Some((next, answer)) => seq![answer] + actions_during(next, events.drop_first()),
            None => actions_during(state, events.drop_first()),
        }
    }
}

/// Whether `action` sends something through the one-shot channel.
pub open spec fn uses_channel(action: Action) -> bool {
    action == Action::HandOffSwitch || action is HandOffFailure
}

/// Whether the life of a server may pass from `from` straight to `to`.
pub open spec fn may_follow(from: Phase, to: Phase) -> bool {
    match (from, to) {
        (Phase::Unstarted, Phase::Binding) => true,
        (Phase::Binding, Phase::Running) => true,
        (Phase::Binding, Phase::Stopped) => true,
        (Phase::Running, Phase::Stopping) => true,
        (Phase::Running, Phase::Stopped) => true,
        (Phase::Stopping, Phase::Stopped) => true,
        _ => false,
    }
}

/// Every accepted event takes the unit further, so no state comes twice.
pub proof fn lemma_step_advances(state: RunnerState, event: Event)
    requires
        transition(state, event) is Some,
    ensures
        state.progress() < transition(state, event)->Some_0.0.progress(),
        transition(state, event)->Some_0.0.progress() <= 5,
{
}

/// A server's life moves only along Unstarted, Binding, Running, Stopping,
/// Stopped: an accepted event keeps the phase or moves it one allowed step.
/// From Binding it may fall straight to Stopped, and from Running only where
/// the handoff or the event loop failed.
pub proof fn lemma_phase_order(state: RunnerState, event: Event)
    requires
        transition(state, event) is Some,
    ensures
        ({
            let next = transition(state, event)->Some_0.0;
            &&& next.phase() == state.phase() || may_follow(state.phase(), next.phase())
            &&& state.phase() == Phase::Running && next.phase() == Phase::Stopped ==> event
                == Event::HandoffFailed || event == Event::LoopFailed
        }),
{
}

/// The stop switch leaves the unit only once the address is bound: the action
/// that hands it off answers the report of a successful bind and no other, and
/// the server is then in its Running phase.
pub proof fn lemma_switch_only_when_bound(state: RunnerState, event: Event)
    requires
        transition(state, event) is Some,
    ensures
        transition(state, event)->Some_0.1 == Action::HandOffSwitch <==> state
            == RunnerState::Binding && event == Event::Bound,
        transition(state, event)->Some_0.1 == Action::HandOffSwitch ==> transition(
            state,
            event,
        )->Some_0.0.phase() == Phase::Running,
{
}

/// The unit serves only after the caller has taken the stop switch, and ends
/// well only after a graceful stop.
pub proof fn lemma_serve_only_after_handoff(state: RunnerState, event: Event)
    requires
        transition(state, event) is Some,
    ensures
        transition(state, event)->Some_0.1 == Action::Serve <==> state == RunnerState::HandingOff
            && event == Event::HandedOff,
        transition(state, event)->Some_0.1 == Action::Exit(Ok(())) <==> state
            == RunnerState::Draining && event == Event::Drained,
{
}

/// A run takes no action once the unit has gone past all its states.
proof fn lemma_bounded_from(state: RunnerState, events: Seq<Event>)
    ensures
        actions_during(state, events).len() + state.progress() <= 5,
        state_after(state, events).progress() >= state.progress(),
    decreases events.len(),
{
    if events.len() > 0 {
        match transition(state, events[0]) {
            Some((next, _)) => {
                lemma_step_advances(state, events[0]);
                lemma_bounded_from(next, events.drop_first());
            },
            None => {
                lemma_bounded_from(state, events.drop_first());
            },
        }
    }
}

/// Every run ends: whatever a unit reports, it is told to act at most five
/// times.
pub proof fn lemma_run_is_bounded(events: Seq<Event>)
    ensures
        actions_during(RunnerState::Unstarted, events).len() <= 5,
{
    lemma_bounded_from(RunnerState::Unstarted, events);
}

/// The number of actions in `actions` that send through the channel.
pub open spec fn channel_uses(actions: Seq<Action>) -> nat
    decreases actions.len(),
{
    if actions.len() == 0 {
        0
    } else if uses_channel(actions[0]) {
        1 + channel_uses(actions.drop_first())
    } else {
        channel_uses(actions.drop_first())
    }
}

/// From a state past Binding nothing more is sent through the channel; from
/// an earlier one, at most one thing.
proof fn lemma_channel_uses_from(state: RunnerState, events: Seq<Event>)
    ensures
        channel_uses(actions_during(state, events)) <= 1,
        state.progress() >= 2 ==> channel_uses(actions_during(state, events)) == 0,
    decreases events.len(),
{
    if events.len() > 0 {
        let rest = events.drop_first();
        match transition(state, events[0]) {
            Some((next, answer)) => {
                lemma_step_advances(state, events[0]);
                lemma_channel_uses_from(next, rest);
                let tail = actions_during(next, rest);
                assert((seq![answer] + tail).drop_first() =~= tail);
                assert((seq![answer] + tail)[0] == answer);
            },
            None => {
                lemma_channel_uses_from(state, rest);
            },
        }
    }
}

/// The channel is one-shot: in any run the unit is told at most once to send
/// through it.
pub proof fn lemma_handoff_at_most_once(events: Seq<Event>)
    ensures
        channel_uses(actions_during(RunnerState::Unstarted, events)) <= 1,
{
    lemma_channel_uses_from(RunnerState::Unstarted, events);
}

/// Once binding has failed the server stays Stopped: whatever the unit reports
/// afterwards, it is never told to hand off a stop switch nor to serve, and
/// the only action left is to exit with that bind failure.
pub proof fn lemma_bind_failure_never_serves(failure: BindFailure, events: Seq<Event>)
    ensures
        state_after(RunnerState::Reporting(failure), events).phase() == Phase::Stopped,
        forall|i: int|
            0 <= i < actions_during(RunnerState::Reporting(failure), events).len()
                ==> #[trigger] actions_during(RunnerState::Reporting(failure), events)[i]
                == Action::Exit(
                Err(RuntimeError::StartupFailed(StartupError::BindError(failure))),
            ),
    decreases events.len(),
{
    let state = RunnerState::Reporting(failure);
    if events.len() > 0 {
        let rest = events.drop_first();
        match transition(state, events[0]) {
            Some((next, answer)) => {
                assert(next == RunnerState::Finished);
                lemma_finished_is_final(rest);
                assert(actions_during(state, events) =~= seq![answer]);
            },
            None => {
                lemma_bind_failure_never_serves(failure, rest);
            },
        }
    }
}

/// A unit that was told to exit is told nothing more.
pub proof fn lemma_finished_is_final(events: Seq<Event>)
    ensures
        state_after(RunnerState::Finished, events) == RunnerState::Finished,
        actions_during(RunnerState::Finished, events) =~= Seq::<Action>::empty(),
    decreases events.len(),
{
    if events.len() > 0 {
        lemma_finished_is_final(events.drop_first());
    }
}

/// A serving unit that reports a stop signal and then the end of the drain is
/// told to drain and then to exit with success, and is finished: whatever it
/// reports after that changes nothing.
pub proof fn lemma_stop_signal_ends_well(later: Seq<Event>)
    ensures
        state_after(RunnerState::Serving, seq![Event::StopSignal, Event::Drained] + later)
            == RunnerState::Finished,
        actions_during(RunnerState::Serving, seq![Event::StopSignal, Event::Drained] + later)
            =~= seq![Action::Drain, Action::Exit(Ok(()))],
{
    let events = seq![Event::StopSignal, Event::Drained] + later;
    let tail = seq![Event::Drained] + later;
    assert(events.drop_first() =~= tail);
    assert(tail.drop_first() =~= later);
    assert(transition(RunnerState::Serving, events[0]) == Some(
        (RunnerState::Draining, Action::Drain),
    ));
    assert(transition(RunnerState::Draining, tail[0]) == Some(
        (RunnerState::Finished, Action::Exit(Ok(()))),
    ));
    lemma_finished_is_final(later);
    assert(state_after(RunnerState::Draining, tail) == RunnerState::Finished);
    assert(actions_during(RunnerState::Draining, tail) =~= seq![Action::Exit(Ok(()))]);
}

/// One stop signal is enough, and a second does no harm: a unit that drains
/// or has finished takes no further stop signal, so a run with a repeated
/// signal goes as the run without it.
pub proof fn lemma_repeated_stop_signal_changes_nothing(state: RunnerState, later: Seq<Event>)
    requires
        state == RunnerState::Draining || state == RunnerState::Finished,
    ensures
        transition(state, Event::StopSignal) is None,
        state_after(state, seq![Event::StopSignal] + later) == state_after(state, later),
        actions_during(state, seq![Event::StopSignal] + later) == actions_during(state, later),
{
    let events = seq![Event::StopSignal] + later;
    assert(events.drop_first() =~= later);
    assert(events[0] == Event::StopSignal);
}

} // verus!
