//! The caller's side of a start: what came through the one-shot channel, and
//! what the caller gets for it.

use vstd::prelude::*;
use crate::error::{BindFailure, StartupError};
use crate::shutdown::{RestApiShutdownHandle, StopSwitch};

verus! {

/// What the caller of a start learns from the one-shot channel. Each start
/// yields exactly one.
pub enum StartupResult<S: StopSwitch> {
    /// The server is bound and listening; this is its stop switch.
    Success(S),
    /// The address could not be bound, and the server's unit has given up.
    BindError(BindFailure),
    /// The channel closed with nothing sent: the unit ended before it could
    /// report.
    HandoffError,
}

/// Makes the result of a start from what came through the channel.
///
/// A caller gets a shutdown handle only for a server that has bound its
/// address, and then the handle throws that server's switch. Every other
/// outcome is an error that names what went wrong, and leaves no handle.
pub fn conclude_startup<S: StopSwitch>(outcome: StartupResult<S>) -> (r: Result<
    RestApiShutdownHandle<S>,
    StartupError,
>)
    ensures
        match outcome {
            StartupResult::Success(switch) => r is Ok && r->Ok_0.switch() == switch,
            StartupResult::BindError(failure) => r is Err && r->Err_0 == StartupError::BindError(
                failure,
            ),
            StartupResult::HandoffError => r is Err && r->Err_0 == StartupError::HandoffError,
        },
{
    match outcome {
        StartupResult::Success(switch) => Ok(RestApiShutdownHandle::new(switch)),
        StartupResult::BindError(failure) => Err(StartupError::BindError(failure)),
        StartupResult::HandoffError => Err(StartupError::HandoffError),
    }
}

} // verus!
