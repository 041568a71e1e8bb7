//! The errors of the handshake, one type for each place where one can show.

use vstd::prelude::*;
use std::io::ErrorKind;

verus! {

/// Why an address could not be bound.
#[derive(Clone, Copy, Debug, PartialEq, Eq, Structural)]
pub enum BindFailure {
    /// Another listener holds the address.
    AddressInUse,
    /// The text names no address that can be bound.
    InvalidAddress,
    /// The process may not bind the address.
    PermissionDenied,
    /// Any other refusal of the bind call.
    Other,
}

/// The kinds of I/O error that the standard library tells apart. Nothing is
/// claimed of them: the declaration lets the rules below read a kind.
#[verifier::external_type_specification]
pub struct ExErrorKind(ErrorKind);

impl BindFailure {
    /// The failure that stands for `kind`.
    pub open spec fn of_kind(kind: ErrorKind) -> BindFailure {
        if kind == ErrorKind::AddrInUse {
            BindFailure::AddressInUse
        } else if kind == ErrorKind::PermissionDenied {
            BindFailure::PermissionDenied
        } else if kind == ErrorKind::AddrNotAvailable || kind == ErrorKind::InvalidInput {
            BindFailure::InvalidAddress
        } else {
            BindFailure::Other
        }
    }

    /// Sorts the error of a refused bind call by its kind.
    ///
    /// An address that is taken is `AddressInUse`; one that the process may
    /// not have is `PermissionDenied`; a text that is no address, or an
    /// address that is not one of this machine, is `InvalidAddress`. Every
    /// other kind is `Other`.
    pub fn from_kind(kind: ErrorKind) -> (failure: BindFailure)
        ensures
            failure == Self::of_kind(kind),
            failure == BindFailure::AddressInUse <==> kind == ErrorKind::AddrInUse,
            failure == BindFailure::PermissionDenied <==> kind == ErrorKind::PermissionDenied,
            failure == BindFailure::InvalidAddress <==> kind == ErrorKind::AddrNotAvailable || kind
                == ErrorKind::InvalidInput,
    {
        match kind {
            ErrorKind::AddrInUse => BindFailure::AddressInUse,
            ErrorKind::PermissionDenied => BindFailure::PermissionDenied,
            ErrorKind::AddrNotAvailable | ErrorKind::InvalidInput => BindFailure::InvalidAddress,
            _ => BindFailure::Other,
        }
    }
}

/// Why a server did not start. The caller of a failed start holds neither a
/// shutdown handle nor a join token.
#[derive(Clone, Copy, Debug, PartialEq, Eq, Structural)]
pub enum StartupError {
    /// The address could not be bound.
    BindError(BindFailure),
    /// The one-shot channel closed before anything came through it.
    HandoffError,
}

/// Why a request to stop was not taken.
#[derive(Clone, Copy, Debug, PartialEq, Eq, Structural)]
pub enum ShutdownError {
    /// The server is up, but its mailbox refused the stop message.
    SignalSendFailed,
    /// The server is gone: nothing is left to stop.
    AlreadyStopped,
}

/// How a server's execution unit ended, where it did not end well. The join
/// token carries it.
#[derive(Clone, Copy, Debug, PartialEq, Eq, Structural)]
pub enum RuntimeError {
    /// The unit ended before it ever served.
    StartupFailed(StartupError),
    /// The event loop ended otherwise than by a stop signal.
    AbnormalExit,
}

} // verus!
