//! The session as a mathematical object: its states, and what each lifecycle
//! call returns and leaves behind as a function of the state it finds.
//!
//! A session is in exactly one of three states. `initialize` is the only way
//! out of `Uninitialized`, `start` the only way from `Initialized` to
//! `Running`, and `stop` the only way out of `Running`, back to
//! `Uninitialized`. A call that fails leaves the state as it found it.

use vstd::prelude::*;
use crate::error::SessionError;

verus! {

/// Which of its three states a session is in.
#[derive(Clone, Copy, Debug, PartialEq, Eq, Structural)]
pub enum Phase {
    Uninitialized,
    Initialized,
    Running,
}

/// What a session holds, with the remote address as a sequence of characters.
/// `M` is the multiplexor handle and `D` the interface device; the session
/// keeps both from `initialize` to `start` and never looks inside them.
pub enum SessionView<M, D> {
    Uninitialized,
    Initialized { mux: M, device: D, mtu: u16, remote_address: Seq<char> },
    Running { remote_address: Seq<char> },
}

/// What the collaborators made of an admitted `initialize`.
pub enum ProvisioningView<M, D> {
    /// The transport or the interface device could not be set up.
    Failed,
    /// Both are up; the transport may or may not know its socket address.
    Ready { mux: M, device: D, remote_address: Option<Seq<char>> },
}

/// What `start` hands to the forwarding loop, the control channel aside.
pub struct Launch<M, D> {
    pub mux: M,
    pub device: D,
    pub mtu: u16,
}

impl<M, D> SessionView<M, D> {
    pub open spec fn phase(self) -> Phase {
        match self {
            SessionView::Uninitialized => Phase::Uninitialized,
            SessionView::Initialized { .. } => Phase::Initialized,
            SessionView::Running { .. } => Phase::Running,
        }
    }

    /// The address captured at `initialize`, while there is one.
    pub open spec fn remote_address(self) -> Option<Seq<char>> {
        match self {
            SessionView::Uninitialized => None,
            SessionView::Initialized { remote_address, .. } => Some(remote_address),
            SessionView::Running { remote_address } => Some(remote_address),
        }
    }
}

impl<M, D> ProvisioningView<M, D> {
    /// The collaborators delivered everything a session needs.
    pub open spec fn complete(self) -> bool {
        self matches ProvisioningView::Ready { remote_address, .. } && remote_address is Some
    }
}

/// A text that can be handed over the foreign-call boundary as a C string: it
/// has no NUL character in it.
pub open spec fn c_compatible(text: Seq<char>) -> bool {
    !text.contains('\0')
}

/// The verdict on the arguments of an `initialize`, reached before anything is
/// opened. The state is looked at first, then the device handle, then the
/// endpoint, of which only the URL parser's verdict matters.
pub open spec fn admission_outcome<M, D>(
    s: SessionView<M, D>,
    device_handle: int,
    endpoint_accepted: bool,
) -> Result<(), SessionError> {
    if !(s is Uninitialized) {
        Err(SessionError::AlreadyInitialized)
    } else if device_handle < 0 || !endpoint_accepted {
        Err(SessionError::TransportError)
    } else {
        Ok(())
    }
}

/// What `initialize` returns.
pub open spec fn initialize_outcome<M, D>(
    s: SessionView<M, D>,
    provisioning: ProvisioningView<M, D>,
) -> Result<(), SessionError> {
    if !(s is Uninitialized) {
        Err(SessionError::AlreadyInitialized)
    } else {
        match provisioning {
            ProvisioningView::Failed => Err(SessionError::TransportError),
            ProvisioningView::Ready { remote_address: None, .. } => Err(
                SessionError::NoRemoteAddress,
            ),
            ProvisioningView::Ready { remote_address: Some(_), .. } => Ok(()),
        }
    }
}

/// The state `initialize` leaves.
pub open spec fn after_initialize<M, D>(
    s: SessionView<M, D>,
    mtu: u16,
    provisioning: ProvisioningView<M, D>,
) -> SessionView<M, D> {
    if initialize_outcome(s, provisioning) is Ok {
        SessionView::Initialized {
            mux: provisioning->mux,
            device: provisioning->device,
            mtu,
            remote_address: provisioning->remote_address->Some_0,
        }
    } else {
        s
    }
}

/// What `start` returns.
pub open spec fn start_outcome<M, D>(s: SessionView<M, D>) -> Result<Launch<M, D>, SessionError> {
    match s {
        SessionView::Running { .. } => Err(SessionError::AlreadyStarted),
        SessionView::Uninitialized => Err(SessionError::NotInitialized),
        SessionView::Initialized { mux, device, mtu, .. } => Ok(Launch { mux, device, mtu }),
    }
}

/// The state `start` leaves.
pub open spec fn after_start<M, D>(s: SessionView<M, D>) -> SessionView<M, D> {
    match s {
        SessionView::Initialized { remote_address, .. } => SessionView::Running { remote_address },
        _ => s,
    }
}

/// What `stop` returns, given whether the shutdown signal could be queued.
pub open spec fn stop_outcome<M, D>(s: SessionView<M, D>, delivered: bool) -> Result<
    (),
    SessionError,
> {
    if !(s is Running) {
        Err(SessionError::NotStarted)
    } else if !delivered {
        Err(SessionError::TransportError)
    } else {
        Ok(())
    }
}

/// The state `stop` leaves.
pub open spec fn after_stop<M, D>(s: SessionView<M, D>, delivered: bool) -> SessionView<M, D> {
    if stop_outcome(s, delivered) is Ok {
        SessionView::Uninitialized
    } else {
        s
    }
}

/// What a query for the remote address returns.
pub open spec fn query_outcome<M, D>(s: SessionView<M, D>) -> Result<Seq<char>, SessionError> {
    match s.remote_address() {
        None => Err(SessionError::NotInitialized),
        Some(address) => if c_compatible(address) {
            Ok(address)
        } else {
            Err(SessionError::StringEncodingError)
        },
    }
}

} // verus!
