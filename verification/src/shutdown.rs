//! The shutdown handle: one capability, to ask a running server to stop.

use vstd::prelude::*;
use crate::error::ShutdownError;

verus! {

/// What became of one attempt to put a stop message into a server's mailbox.
#[derive(Clone, Copy, Debug, PartialEq, Eq, Structural)]
pub enum Delivery {
    /// The mailbox took the message; the server will read it.
    Accepted,
    /// The mailbox is open but did not take the message.
    Refused,
    /// The mailbox is closed: its server has ended.
    Closed,
}

/// The message-passing end of a running server: it can send the server a stop
/// message, and nothing else.
///
/// An implementation sends without waiting for the server to drain, and
/// reports what the mailbox did with the message. The handle moves between
/// threads, hence `Send`.
pub trait StopSwitch: Send {
    /// Sends one stop message and says what became of it. With `graceful` the
    /// server is asked to let the work in flight finish; without it, to drop
    /// that work.
    fn send_stop(&self, graceful: bool) -> Delivery;
}

/// What a request to stop reports for each fate of its message.
pub open spec fn outcome_of(delivery: Delivery) -> Result<(), ShutdownError> {
    match delivery {
        Delivery::Accepted => Ok(()),
        Delivery::Refused => Err(ShutdownError::SignalSendFailed),
        Delivery::Closed => Err(ShutdownError::AlreadyStopped),
    }
}

/// Turns the fate of a stop message into the result of the request.
///
/// An accepted message is success, on the first request and on any later one
/// that still finds the mailbox open. Once the server has ended, every request
/// is answered with `AlreadyStopped`.
pub fn shutdown_outcome(delivery: Delivery) -> (r: Result<(), ShutdownError>)
    ensures
        r == outcome_of(delivery),
        r is Ok <==> delivery == Delivery::Accepted,
        r == Err::<(), ShutdownError>(ShutdownError::SignalSendFailed) <==> delivery
            == Delivery::Refused,
        r == Err::<(), ShutdownError>(ShutdownError::AlreadyStopped) <==> delivery
            == Delivery::Closed,
{
    match delivery {
        Delivery::Accepted => Ok(()),
        Delivery::Refused => Err(ShutdownError::SignalSendFailed),
        Delivery::Closed => Err(ShutdownError::AlreadyStopped),
    }
}

/// A request has a defined result however often it is made: the result of a
/// second request is fixed by the fate of its own message, whatever the first
/// one met. It is success while the mailbox still takes messages,
/// `AlreadyStopped` once the server has ended, and the same as the first
/// result wherever both messages met the same fate.
pub proof fn lemma_second_request_is_defined(first: Delivery, second: Delivery)
    ensures
        outcome_of(second) == Ok::<(), ShutdownError>(()) || outcome_of(second) == Err::<
            (),
            ShutdownError,
        >(ShutdownError::AlreadyStopped) || outcome_of(second) == Err::<(), ShutdownError>(
            ShutdownError::SignalSendFailed,
        ),
        second == Delivery::Accepted ==> outcome_of(second) is Ok,
        second == Delivery::Closed ==> outcome_of(second) == Err::<(), ShutdownError>(
            ShutdownError::AlreadyStopped,
        ),
        first == second ==> outcome_of(first) == outcome_of(second),
{
}

/// The caller's means to stop a server that it started. It holds the stop
/// switch of that server and no state of its own.
pub struct RestApiShutdownHandle<S: StopSwitch> {
    switch: S,
}

impl<S: StopSwitch> RestApiShutdownHandle<S> {
    /// The switch that this handle throws.
    pub closed spec fn switch(&self) -> S {
        self.switch
    }

    /// Wraps the stop switch of a server that is bound and listening.
    pub fn new(switch: S) -> (handle: Self)
        ensures
            handle.switch() == switch,
    {
        RestApiShutdownHandle { switch }
    }

    /// Asks the server to stop gracefully, and returns as soon as the switch
    /// has said what became of the message. It does not wait for the server
    /// to end.
    ///
    /// The handle throws its switch once, asking for a graceful stop, and
    /// hands on the answer: the result is the one that [`shutdown_outcome`]
    /// gives for the fate that the switch reported, with nothing added and
    /// nothing swallowed. Which fate that is, the switch alone decides.
    pub fn shutdown(&self) -> (r: Result<(), ShutdownError>)
        ensures
            exists|delivery: Delivery|
                call_ensures(S::send_stop, (&self.switch(), true), delivery) && r
                    == #[trigger] outcome_of(delivery),
    {
        let delivery = self.switch.send_stop(true);
        shutdown_outcome(delivery)
    }
}

} // verus!
