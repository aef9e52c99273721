//! The failures a session can report.

use vstd::prelude::*;

verus! {

/// Why a lifecycle call did not go through.
#[derive(Clone, Copy, Debug, PartialEq, Eq, Structural)]
pub enum SessionError {
    /// `initialize` was called on a session that is initialized or running.
    AlreadyInitialized,
    /// `start` was called on a session that is running.
    AlreadyStarted,
    /// The call needs an initialized session and there is none.
    NotInitialized,
    /// `stop` was called on a session that is not running.
    NotStarted,
    /// A collaborator failed: the endpoint or device was refused, the transport
    /// could not be set up, or the control channel was gone.
    TransportError,
    /// The transport came up but has no socket address to report.
    NoRemoteAddress,
    /// A string cannot cross the foreign-call boundary as it is.
    StringEncodingError,
    /// The multiplexor's background pump ended with an error.
    MultiplexorPumpFailure,
}

/// What the layer that observes a failure does about it.
#[derive(Clone, Copy, Debug, PartialEq, Eq, Structural)]
pub enum Recovery {
    /// Hand the failure to the caller as a `false` or a null string.
    Report,
    /// End the whole process at once.
    AbortProcess,
}

impl SessionError {
    /// The failure that no part of the process can outlive: once the pump has
    /// failed, every logical stream is invalid at the same time.
    pub open spec fn unrecoverable(self) -> bool {
        self is MultiplexorPumpFailure
    }

    /// The policy for this failure, as a function of its kind.
    pub open spec fn recovery_of(self) -> Recovery {
        if self.unrecoverable() {
            Recovery::AbortProcess
        } else {
            Recovery::Report
        }
    }

    /// Says whether the process must end. Only a pump failure does that; every
    /// other failure is reported to the caller and the process goes on.
    pub fn recovery(&self) -> (policy: Recovery)
        ensures
            policy == self.recovery_of(),
            policy == Recovery::AbortProcess <==> *self == SessionError::MultiplexorPumpFailure,
    {
        match self {
            SessionError::MultiplexorPumpFailure => Recovery::AbortProcess,
            _ => Recovery::Report,
        }
    }
}

} // verus!
