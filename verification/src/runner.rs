//! The server's side of the handshake: what its execution unit does, step by
//! step, from its start to its end.
//!
//! The unit does the outside work (binding, sending through the one-shot
//! channel, running the event loop) and reports each result as an [`Event`].
//! The [`Runner`] answers each event with the next [`Action`]. The unit acts on
//! it and reports again, until the action is [`Action::Exit`].

use vstd::prelude::*;
use crate::error::{BindFailure, RuntimeError, StartupError};

verus! {

/// Where a server stands in its life.
#[derive(Clone, Copy, Debug, PartialEq, Eq, Structural)]
pub enum Phase {
    /// No execution unit runs yet.
    Unstarted,
    /// The unit runs and tries to bind the address.
    Binding,
    /// The address is bound and the server listens.
    Running,
    /// A stop signal has come; the server takes no new connections and lets
    /// those in flight finish.
    Stopping,
    /// The server does not listen, and will not again.
    Stopped,
}

/// What the execution unit is busy with.
#[derive(Clone, Copy, Debug, PartialEq, Eq, Structural)]
pub enum RunnerState {
    /// The unit has not reported yet.
    Unstarted,
    /// The unit binds the address.
    Binding,
    /// Binding failed; the unit sends the failure through the channel.
    Reporting(BindFailure),
    /// The address is bound; the unit sends the stop switch through the
    /// channel.
    HandingOff,
    /// The caller holds the stop switch; the unit runs the event loop.
    Serving,
    /// The stop signal has come; the unit stops gracefully.
    Draining,
    /// The unit has been told to exit.
    Finished,
}

/// What the execution unit reports.
#[derive(Clone, Copy, Debug, PartialEq, Eq, Structural)]
pub enum Event {
    /// The unit has started.
    Spawned,
    /// The address is bound.
    Bound,
    /// The address could not be bound.
    BindFailed(BindFailure),
    /// The channel took what was sent.
    HandedOff,
    /// The channel took nothing: the caller no longer waits.
    HandoffFailed,
    /// The event loop was told to stop.
    StopSignal,
    /// The graceful stop is over.
    Drained,
    /// The event loop ended though nobody asked it to.
    LoopFailed,
}

/// What the execution unit is to do next.
#[derive(Clone, Copy, Debug, PartialEq, Eq)]
pub enum Action {
    /// Bind the address and register the routes.
    Bind,
    /// Send the stop switch of the bound server through the channel.
    HandOffSwitch,
    /// Send the bind failure through the channel.
    HandOffFailure(BindFailure),
    /// Run the event loop until a stop signal comes.
    Serve,
    /// Stop gracefully.
    Drain,
    /// End the unit with this result, which its join token will carry.
    Exit(Result<(), RuntimeError>),
}

impl RunnerState {
    /// The phase of the server's life that the unit's state belongs to.
    pub open spec fn phase(self) -> Phase {
        match self {
            RunnerState::Unstarted => Phase::Unstarted,
            RunnerState::Binding => Phase::Binding,
            RunnerState::HandingOff | RunnerState::Serving => Phase::Running,
            RunnerState::Draining => Phase::Stopping,
            RunnerState::Reporting(_) | RunnerState::Finished => Phase::Stopped,
        }
    }

    /// How far the unit has come: every accepted event takes it further.
    pub open spec fn progress(self) -> nat {
        match self {
            RunnerState::Unstarted => 0,
            RunnerState::Binding => 1,
            RunnerState::Reporting(_) | RunnerState::HandingOff => 2,
            RunnerState::Serving => 3,
            RunnerState::Draining => 4,
            RunnerState::Finished => 5,
        }
    }
}

/// The rules of the unit: the state that follows `state` on `event` and the
/// action that answers it, or `None` where the unit cannot have seen `event`
/// in `state`.
pub open spec fn transition(state: RunnerState, event: Event) -> Option<(RunnerState, Action)> {
    match (state, event) {
        (RunnerState::Unstarted, Event::Spawned) => Some((RunnerState::Binding, Action::Bind)),
        (RunnerState::Binding, Event::Bound) => Some(
            (RunnerState::HandingOff, Action::HandOffSwitch),
        ),
        (RunnerState::Binding, Event::BindFailed(failure)) => Some(
            (RunnerState::Reporting(failure), Action::HandOffFailure(failure)),
        ),
        (RunnerState::Reporting(failure), Event::HandedOff)
        | (RunnerState::Reporting(failure), Event::HandoffFailed) => Some(
            (
                RunnerState::Finished,
                Action::Exit(Err(RuntimeError::StartupFailed(StartupError::BindError(failure)))),
            ),
        ),
        (RunnerState::HandingOff, Event::HandedOff) => Some((RunnerState::Serving, Action::Serve)),
        (RunnerState::HandingOff, Event::HandoffFailed) => Some(
            (
                RunnerState::Finished,
                Action::Exit(Err(RuntimeError::StartupFailed(StartupError::HandoffError))),
            ),
        ),
        (RunnerState::Serving, Event::StopSignal) => Some((RunnerState::Draining, Action::Drain)),
        (RunnerState::Draining, Event::Drained) => Some(
            (RunnerState::Finished, Action::Exit(Ok(()))),
        ),
        (RunnerState::Serving, Event::LoopFailed)
        | (RunnerState::Draining, Event::LoopFailed) => Some(
            (RunnerState::Finished, Action::Exit(Err(RuntimeError::AbnormalExit))),
        ),
        _ => None,
    }
}

/// The report that the unit makes of an event loop that has returned with
/// `code`.
///
/// A loop that was told to stop returns zero. Any other code means that it
/// ended though nobody asked it to.
pub fn loop_report(code: i32) -> (event: Event)
    ensures
        code == 0 ==> event == Event::StopSignal,
        code != 0 ==> event == Event::LoopFailed,
{
    if code == 0 {
        Event::StopSignal
    } else {
        Event::LoopFailed
    }
}

/// The decisions of one execution unit.
pub struct Runner {
    state: RunnerState,
}

impl Runner {
    /// What the unit is busy with.
    pub closed spec fn view(&self) -> RunnerState {
        self.state
    }

    /// A runner for a unit that has not started.
    pub fn new() -> (runner: Runner)
        ensures
            runner@ == RunnerState::Unstarted,
    {
        Runner { state: RunnerState::Unstarted }
    }

    /// What the unit is busy with.
    pub fn state(&self) -> (state: RunnerState)
        ensures
            state == self@,
    {
        self.state
    }

    /// The phase of the server's life.
    pub fn phase(&self) -> (phase: Phase)
        ensures
            phase == self@.phase(),
    {
        match self.state {
            RunnerState::Unstarted => Phase::Unstarted,
            RunnerState::Binding => Phase::Binding,
            RunnerState::HandingOff => Phase::Running,
            RunnerState::Serving => Phase::Running,
            RunnerState::Draining => Phase::Stopping,
            RunnerState::Reporting(_) => Phase::Stopped,
            RunnerState::Finished => Phase::Stopped,
        }
    }

    /// Takes one report of the unit and says what the unit is to do next.
    ///
    /// An event that the rules allow in the present state moves the runner on
    /// and is answered with its action. Any other event is answered with
    /// `None` and changes nothing.
    pub fn step(&mut self, event: Event) -> (action: Option<Action>)
        ensures
            match transition(old(self)@, event) {
                Some((next, answer)) => final(self)@ == next && action == Some(answer),
                None => final(self)@ == old(self)@ && action is None,
            },
    {
        let (next, answer) = match self.state {
            RunnerState::Unstarted => match event {
                Event::Spawned => (RunnerState::Binding, Action::Bind),
                _ => return None,
            },
            RunnerState::Binding => match event {
                Event::Bound => (RunnerState::HandingOff, Action::HandOffSwitch),
                Event::BindFailed(failure) => (
                    RunnerState::Reporting(failure),
                    Action::HandOffFailure(failure),
                ),
                _ => return None,
            },
            RunnerState::Reporting(failure) => match event {
                Event::HandedOff | Event::HandoffFailed => (
                    RunnerState::Finished,
                    Action::Exit(Err(RuntimeError::StartupFailed(StartupError::BindError(failure)))),
                ),
                _ => return None,
            },
            RunnerState::HandingOff => match event {
                Event::HandedOff => (RunnerState::Serving, Action::Serve),
                Event::HandoffFailed => (
                    RunnerState::Finished,
                    Action::Exit(Err(RuntimeError::StartupFailed(StartupError::HandoffError))),
                ),
                _ => return None,
            },
            RunnerState::Serving => match event {
                Event::StopSignal => (RunnerState::Draining, Action::Drain),
                Event::LoopFailed => (
                    RunnerState::Finished,
                    Action::Exit(Err(RuntimeError::AbnormalExit)),
                ),
                _ => return None,
            },
            RunnerState::Draining => match event {
                Event::Drained => (RunnerState::Finished, Action::Exit(Ok(()))),
                Event::LoopFailed => (
                    RunnerState::Finished,
                    Action::Exit(Err(RuntimeError::AbnormalExit)),
                ),
                _ => return None,
            },
            RunnerState::Finished => return None,
        };
        self.state = next;
        Some(answer)
    }
}

} // verus!
