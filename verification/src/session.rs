//! The session: one value that holds the state of a tunnel from `initialize`
//! to `stop`, and the calls that move it from state to state.
//!
//! A session does no I/O and never waits. The caller sets up the transport and
//! the interface device and reports how that went; the caller spawns the
//! forwarding loop with what `start` hands out. Callers that share a session
//! between threads put it behind one lock and hold the lock for the length of
//! each call.

use vstd::prelude::*;
use vstd::string::*;
use tokio::sync::mpsc::{unbounded_channel, UnboundedReceiver, UnboundedSender};
use crate::control::ControlSignal;
use crate::endpoint::{parse_endpoint, uri_well_formed};
use crate::error::SessionError;
use crate::model::{
    admission_outcome, after_initialize, after_start, after_stop, c_compatible,
    initialize_outcome, query_outcome, start_outcome, stop_outcome, Launch, Phase,
    ProvisioningView, SessionView,
};

verus! {

/// The MTU of a tunnel for which none is given: the largest that 16 bits hold.
pub const DEFAULT_MTU: u16 = 65535;

/// What the collaborators made of an admitted `initialize`: the report the
/// caller gives to [`Session::initialize`].
pub enum Provisioning<M, D> {
    /// The transport or the interface device could not be set up.
    Failed,
    /// Both are up. `remote_address` is the transport's socket address as
    /// text, where it has one.
    Ready { mux: M, device: D, remote_address: Option<String> },
}

impl<M, D> View for Provisioning<M, D> {
    type V = ProvisioningView<M, D>;

    open spec fn view(&self) -> ProvisioningView<M, D> {
        match *self {
            Provisioning::Failed => ProvisioningView::Failed,
            Provisioning::Ready { mux, device, remote_address } => ProvisioningView::Ready {
                mux,
                device,
                remote_address: match remote_address {
                    Some(text) => Some(text@),
                    None => None,
                },
            },
        }
    }
}

/// Everything a forwarding loop runs on, handed out once by a successful
/// [`Session::start`].
pub struct ForwardTask<M, D> {
    pub mux: M,
    pub device: D,
    pub mtu: u16,
    /// The receiving end of the control channel; its sender stays in the
    /// session until `stop`.
    pub control: UnboundedReceiver<ControlSignal>,
}

impl<M, D> View for ForwardTask<M, D> {
    type V = Launch<M, D>;

    open spec fn view(&self) -> Launch<M, D> {
        Launch { mux: self.mux, device: self.device, mtu: self.mtu }
    }
}

enum State<M, D> {
    Uninitialized,
    Initialized { mux: M, device: D, mtu: u16, remote_address: String },
    Running { remote_address: String, control: UnboundedSender<ControlSignal> },
}

/// The lifecycle of one tunnel.
pub struct Session<M, D> {
    state: State<M, D>,
}

impl<M, D> View for Session<M, D> {
    type V = SessionView<M, D>;

    closed spec fn view(&self) -> SessionView<M, D> {
        match self.state {
            State::Uninitialized => SessionView::Uninitialized,
            State::Initialized { mux, device, mtu, remote_address } => SessionView::Initialized {
                mux,
                device,
                mtu,
                remote_address: remote_address@,
            },
            State::Running { remote_address, .. } => SessionView::Running {
                remote_address: remote_address@,
            },
        }
    }
}

/// Whether `text` can be handed out as a C string.
pub fn is_c_compatible(text: &str) -> (ok: bool)
    ensures
        ok == c_compatible(text@),
{
    let n = text.unicode_len();
    let mut i: usize = 0;
    while i < n
        invariant
            n == text@.len(),
            i <= n,
            forall|k: int| 0 <= k < i ==> text@[k] != '\0',
        decreases n - i,
    {
        if text.get_char(i) == '\0' {
            return false;
        }
        i += 1;
    }
    true
}

impl<M, D> Session<M, D> {
    /// A session that has not been initialized.
    pub fn new() -> (session: Self)
        ensures
            session@ == SessionView::<M, D>::Uninitialized,
    {
        Session { state: State::Uninitialized }
    }

    /// The state the session is in.
    pub fn phase(&self) -> (phase: Phase)
        ensures
            phase == self@.phase(),
    {
        match &self.state {
            State::Uninitialized => Phase::Uninitialized,
            State::Initialized { .. } => Phase::Initialized,
            State::Running { .. } => Phase::Running,
        }
    }

    /// Decides whether an `initialize` with this device handle may go ahead,
    /// given the URL parser's verdict on its endpoint. Nothing has been opened
    /// when this is asked, and nothing is changed by asking.
    pub fn check_admission(&self, device_handle: i32, endpoint_accepted: bool) -> (verdict: Result<
        (),
        SessionError,
    >)
        ensures
            verdict == admission_outcome(self@, device_handle as int, endpoint_accepted),
    {
        match &self.state {
            State::Uninitialized => {
                if device_handle < 0 || !endpoint_accepted {
                    Err(SessionError::TransportError)
                } else {
                    Ok(())
                }
            },
            _ => Err(SessionError::AlreadyInitialized),
        }
    }

    /// Admits or refuses an `initialize` before anything is opened, and returns
    /// the parsed endpoint for the caller to connect to. A session that is
    /// initialized or running refuses every call; a fresh one refuses a
    /// negative device handle and an endpoint that is not a URL.
    pub fn begin_initialize(&self, device_handle: i32, endpoint: &str) -> (parsed: Result<
        hyper::Uri,
        SessionError,
    >)
        ensures
            parsed is Ok <==> admission_outcome(
                self@,
                device_handle as int,
                uri_well_formed(endpoint@),
            ) is Ok,
            parsed matches Err(e) ==> Err::<(), SessionError>(e) == admission_outcome(
                self@,
                device_handle as int,
                uri_well_formed(endpoint@),
            ),
    {
        match self.check_admission(device_handle, true) {
            Err(e) => Err(e),
            Ok(_) => parse_endpoint(endpoint),
        }
    }

    /// Stores what the collaborators set up and makes the session
    /// `Initialized`. Succeeds exactly when the session is uninitialized and
    /// the report is `Ready` with a remote address. On every failure the
    /// session stays as it was and the resources in the report are dropped.
    pub fn initialize(&mut self, mtu: u16, provisioning: Provisioning<M, D>) -> (done: Result<
        (),
        SessionError,
    >)
        ensures
            done == initialize_outcome(old(self)@, provisioning@),
            final(self)@ == after_initialize(old(self)@, mtu, provisioning@),
            done is Err ==> *final(self) == *old(self),
    {
        match &self.state {
            State::Uninitialized => {},
            _ => {
                return Err(SessionError::AlreadyInitialized);
            },
        }
        match provisioning {
            Provisioning::Failed => Err(SessionError::TransportError),
            Provisioning::Ready { mux, device, remote_address } => match remote_address {
                None => Err(SessionError::NoRemoteAddress),
                Some(text) => {
                    self.state = State::Initialized { mux, device, mtu, remote_address: text };
                    Ok(())
                },
            },
        }
    }

    /// The remote address captured at `initialize`, as a fresh string. Fails
    /// with `NotInitialized` on an uninitialized session, and with
    /// `StringEncodingError` where the address holds a NUL character.
    pub fn remote_address(&self) -> (address: Result<String, SessionError>)
        ensures
            address matches Ok(text) ==> Ok::<Seq<char>, SessionError>(text@) == query_outcome(
                self@,
            ),
            address matches Err(e) ==> Err::<Seq<char>, SessionError>(e) == query_outcome(self@),
    {
        let stored = match &self.state {
            State::Uninitialized => {
                return Err(SessionError::NotInitialized);
            },
            State::Initialized { remote_address, .. } => remote_address,
            State::Running { remote_address, .. } => remote_address,
        };
        if is_c_compatible(stored.as_str()) {
            Ok(stored.clone())
        } else {
            Err(SessionError::StringEncodingError)
        }
    }

    /// Makes an initialized session `Running` and hands out what its forwarding
    /// loop runs on, with the receiving end of a fresh control channel. The
    /// caller spawns the loop; `start` does not wait for it. The remote
    /// address stays what it was. A session in any other state is left
    /// untouched.
    pub fn start(&mut self) -> (started: Result<ForwardTask<M, D>, SessionError>)
        ensures
            started matches Ok(task) ==> Ok::<Launch<M, D>, SessionError>(task@) == start_outcome(
                old(self)@,
            ),
            started matches Err(e) ==> Err::<Launch<M, D>, SessionError>(e) == start_outcome(
                old(self)@,
            ),
            final(self)@ == after_start(old(self)@),
            final(self)@.remote_address() == old(self)@.remote_address(),
            started is Err ==> *final(self) == *old(self),
    {
        match &self.state {
            State::Uninitialized => {
                return Err(SessionError::NotInitialized);
            },
            State::Running { .. } => {
                return Err(SessionError::AlreadyStarted);
            },
            State::Initialized { .. } => {},
        }
        let mut taken = State::Uninitialized;
        core::mem::swap(&mut self.state, &mut taken);
        match taken {
            State::Initialized { mux, device, mtu, remote_address } => {
                let (sender, receiver) = unbounded_channel();
                self.state = State::Running { remote_address, control: sender };
                Ok(ForwardTask { mux, device, mtu, control: receiver })
            },
            _ => Err(SessionError::NotInitialized),
        }
    }

    /// Ends a `stop` whose shutdown signal was or was not queued. A running
    /// session whose signal was queued becomes `Uninitialized` and may be
    /// initialized again. Where the signal could not be queued the loop has
    /// already ended by itself: that is a failure, and like every failure it
    /// leaves the session as it was.
    pub fn conclude_stop(&mut self, delivered: bool) -> (stopped: Result<(), SessionError>)
        ensures
            stopped == stop_outcome(old(self)@, delivered),
            final(self)@ == after_stop(old(self)@, delivered),
            stopped is Err ==> *final(self) == *old(self),
    {
        match &self.state {
            State::Running { .. } => {},
            _ => {
                return Err(SessionError::NotStarted);
            },
        }
        if delivered {
            self.state = State::Uninitialized;
            Ok(())
        } else {
            Err(SessionError::TransportError)
        }
    }

    /// Sends one shutdown signal to the forwarding loop of a running session
    /// and, if it could be queued, makes the session `Uninitialized`. Whether
    /// it can be queued is up to the loop, which may have ended by itself; the
    /// contract says what holds either way.
    pub fn stop(&mut self) -> (stopped: Result<(), SessionError>)
        ensures
            !(old(self)@ is Running) ==> stopped == Err::<(), SessionError>(
                SessionError::NotStarted,
            ),
            exists|delivered: bool|
                stopped == stop_outcome(old(self)@, delivered) && final(self)@ == after_stop(
                    old(self)@,
                    delivered,
                ),
            stopped is Err ==> *final(self) == *old(self),
    {
        let delivered = match &self.state {
            State::Running { control, .. } => control.send(ControlSignal::Shutdown).is_ok(),
            _ => false,
        };
        self.conclude_stop(delivered)
    }
}

} // verus!
