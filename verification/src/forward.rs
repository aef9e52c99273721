//! The decisions of the forwarding loop.
//!
//! The loop races two sources, the next connection from the IP stack and the
//! next control signal, and acts on whichever comes first. The caller does the
//! waiting and the I/O; it tells the loop what happened as a [`ForwardEvent`]
//! and carries out the [`ForwardAction`] it gets back. Once the loop has
//! stopped it stays stopped: no later event makes it open another stream.

use vstd::prelude::*;
use crate::control::ControlSignal;

verus! {

/// The transport protocol of a bridged connection.
#[derive(Clone, Copy, Debug, PartialEq, Eq, Structural)]
pub enum ProtocolKind {
    Tcp,
    Udp,
}

/// Why the loop returned.
#[derive(Clone, Copy, Debug, PartialEq, Eq, Structural)]
pub enum ExitReason {
    /// It was told to, or nobody is left who could tell it.
    Shutdown,
    /// Something failed that the loop cannot outlive.
    Fatal,
}

/// Whether the loop is still accepting.
#[derive(Clone, Copy, Debug, PartialEq, Eq, Structural)]
pub enum LoopStatus {
    Accepting,
    Stopped(ExitReason),
}

/// The key under which a logical stream is opened: protocol, peer host as
/// text, peer port.
#[derive(Clone, Debug, PartialEq, Eq)]
pub struct ConnectionDescriptor {
    pub kind: ProtocolKind,
    pub host: String,
    pub port: u16,
}

/// A [`ConnectionDescriptor`] with its host as a sequence of characters.
pub struct DescriptorView {
    pub kind: ProtocolKind,
    pub host: Seq<char>,
    pub port: u16,
}

impl View for ConnectionDescriptor {
    type V = DescriptorView;

    open spec fn view(&self) -> DescriptorView {
        DescriptorView { kind: self.kind, host: self.host@, port: self.port }
    }
}

/// What the IP stack accepted, reduced to what the loop reads of it.
#[derive(Clone, Debug, PartialEq, Eq)]
pub enum Accepted {
    Tcp { peer_host: String, peer_port: u16 },
    Udp { peer_host: String, peer_port: u16 },
    /// Anything that is neither TCP nor UDP.
    Other,
}

/// An [`Accepted`] with its host as a sequence of characters.
pub enum AcceptedView {
    Tcp { peer_host: Seq<char>, peer_port: u16 },
    Udp { peer_host: Seq<char>, peer_port: u16 },
    Other,
}

impl View for Accepted {
    type V = AcceptedView;

    open spec fn view(&self) -> AcceptedView {
        match *self {
            Accepted::Tcp { peer_host, peer_port } => AcceptedView::Tcp {
                peer_host: peer_host@,
                peer_port,
            },
            Accepted::Udp { peer_host, peer_port } => AcceptedView::Udp {
                peer_host: peer_host@,
                peer_port,
            },
            Accepted::Other => AcceptedView::Other,
        }
    }
}

/// One thing that happened to the loop.
#[derive(Clone, Debug, PartialEq, Eq)]
pub enum ForwardEvent {
    /// The accept source yielded a connection.
    Connection(Accepted),
    /// The accept source failed with an I/O error.
    AcceptFailed,
    /// A control signal arrived.
    Signal(ControlSignal),
    /// The control channel closed: every sender is gone.
    ControlClosed,
}

/// A [`ForwardEvent`] with its host as a sequence of characters.
pub enum ForwardEventView {
    Connection(AcceptedView),
    AcceptFailed,
    Signal(ControlSignal),
    ControlClosed,
}

impl View for ForwardEvent {
    type V = ForwardEventView;

    open spec fn view(&self) -> ForwardEventView {
        match *self {
            ForwardEvent::Connection(accepted) => ForwardEventView::Connection(accepted@),
            ForwardEvent::AcceptFailed => ForwardEventView::AcceptFailed,
            ForwardEvent::Signal(signal) => ForwardEventView::Signal(signal),
            ForwardEvent::ControlClosed => ForwardEventView::ControlClosed,
        }
    }
}

/// What the caller does next.
#[derive(Clone, Debug, PartialEq, Eq)]
pub enum ForwardAction {
    /// Ask the multiplexor for a logical stream under this descriptor. If it
    /// gives one, spawn a bridge between the connection and the stream; if
    /// not, drop the connection. Go on accepting either way.
    OpenStream(ConnectionDescriptor),
    /// Drop what was accepted, if anything, and go on accepting.
    Continue,
    /// Return from the loop without waiting for the bridges it spawned.
    Exit(ExitReason),
}

/// A [`ForwardAction`] with its host as a sequence of characters.
pub enum ForwardActionView {
    OpenStream(DescriptorView),
    Continue,
    Exit(ExitReason),
}

impl View for ForwardAction {
    type V = ForwardActionView;

    open spec fn view(&self) -> ForwardActionView {
        match *self {
            ForwardAction::OpenStream(descriptor) => ForwardActionView::OpenStream(descriptor@),
            ForwardAction::Continue => ForwardActionView::Continue,
            ForwardAction::Exit(reason) => ForwardActionView::Exit(reason),
        }
    }
}

/// The descriptor of an accepted connection: protocol, peer host, peer port
/// for TCP and UDP, none for anything else.
pub open spec fn descriptor_of(accepted: AcceptedView) -> Option<DescriptorView> {
    match accepted {
        AcceptedView::Tcp { peer_host, peer_port } => Some(
            DescriptorView { kind: ProtocolKind::Tcp, host: peer_host, port: peer_port },
        ),
        AcceptedView::Udp { peer_host, peer_port } => Some(
            DescriptorView { kind: ProtocolKind::Udp, host: peer_host, port: peer_port },
        ),
        AcceptedView::Other => None,
    }
}

/// The status after `event`. A stopped loop stays as it is. An accepting loop
/// stops on a shutdown signal, on a closed control channel and on a failure of
/// the accept source, and goes on otherwise.
pub open spec fn status_after(status: LoopStatus, event: ForwardEventView) -> LoopStatus {
    match status {
        LoopStatus::Stopped(_) => status,
        LoopStatus::Accepting => match event {
            ForwardEventView::Connection(_) => LoopStatus::Accepting,
            ForwardEventView::AcceptFailed => LoopStatus::Stopped(ExitReason::Fatal),
            ForwardEventView::Signal(ControlSignal::Shutdown) => LoopStatus::Stopped(
                ExitReason::Shutdown,
            ),
            ForwardEventView::ControlClosed => LoopStatus::Stopped(ExitReason::Shutdown),
        },
    }
}

/// The action on `event`. A loop that has stopped, now or earlier, exits with
/// the reason it stopped for. An accepting loop opens a stream for a TCP or
/// UDP connection and passes over any other.
pub open spec fn action_on(status: LoopStatus, event: ForwardEventView) -> ForwardActionView {
    match status_after(status, event) {
        LoopStatus::Stopped(reason) => ForwardActionView::Exit(reason),
        LoopStatus::Accepting => match event {
            ForwardEventView::Connection(accepted) => match descriptor_of(accepted) {
                Some(descriptor) => ForwardActionView::OpenStream(descriptor),
                None => ForwardActionView::Continue,
            },
            _ => ForwardActionView::Continue,
        },
    }
}

/// The status of a fresh loop after the events of `events`, in order.
pub open spec fn status_after_all(events: Seq<ForwardEventView>) -> LoopStatus
    decreases events.len(),
{
    if events.len() == 0 {
        LoopStatus::Accepting
    } else {
        status_after(status_after_all(events.drop_last()), events.last())
    }
}

/// The action a fresh loop takes on the event at position `i` of `events`.
pub open spec fn action_at(events: Seq<ForwardEventView>, i: int) -> ForwardActionView {
    action_on(status_after_all(events.take(i)), events[i])
}

/// The status an event finds is the status after the events before it.
proof fn lemma_status_step(events: Seq<ForwardEventView>, n: int)
    requires
        0 < n <= events.len(),
    ensures
        status_after_all(events.take(n)) == status_after(
            status_after_all(events.take(n - 1)),
            events[n - 1],
        ),
{
    assert(events.take(n).drop_last() =~= events.take(n - 1));
}

/// A shutdown signal makes the loop exit, whatever came before it; a loop that
/// was still accepting exits for that reason.
pub proof fn law_shutdown_exits(status: LoopStatus)
    ensures
        action_on(status, ForwardEventView::Signal(ControlSignal::Shutdown)) is Exit,
        status == LoopStatus::Accepting ==> action_on(
            status,
            ForwardEventView::Signal(ControlSignal::Shutdown),
        ) == ForwardActionView::Exit(ExitReason::Shutdown),
{
}

/// Once the loop has exited it accepts nothing more: every later event gets
/// the same answer, to exit for the same reason, and so none opens a stream.
pub proof fn law_exit_is_final(events: Seq<ForwardEventView>, i: int, j: int)
    requires
        0 <= i < j < events.len(),
        action_at(events, i) is Exit,
    ensures
        action_at(events, j) == action_at(events, i),
        status_after_all(events.take(j + 1)) == status_after_all(events.take(i + 1)),
    decreases j - i,
{
    lemma_status_step(events, i + 1);
    lemma_status_step(events, j + 1);
    if j > i + 1 {
        law_exit_is_final(events, i, j - 1);
    }
}

/// Extracts the descriptor under which the stream for an accepted connection
/// is opened.
pub fn describe(accepted: Accepted) -> (descriptor: Option<ConnectionDescriptor>)
    ensures
        descriptor matches Some(d) ==> descriptor_of(accepted@) == Some(d@),
        descriptor is None ==> descriptor_of(accepted@) is None,
{
    match accepted {
        Accepted::Tcp { peer_host, peer_port } => Some(
            ConnectionDescriptor { kind: ProtocolKind::Tcp, host: peer_host, port: peer_port },
        ),
        Accepted::Udp { peer_host, peer_port } => Some(
            ConnectionDescriptor { kind: ProtocolKind::Udp, host: peer_host, port: peer_port },
        ),
        Accepted::Other => None,
    }
}

/// The state of one forwarding loop.
pub struct ForwardLoop {
    status: LoopStatus,
}

impl View for ForwardLoop {
    type V = LoopStatus;

    closed spec fn view(&self) -> LoopStatus {
        self.status
    }
}

impl ForwardLoop {
    /// A loop that is accepting.
    pub fn new() -> (forward: Self)
        ensures
            forward@ == LoopStatus::Accepting,
    {
        ForwardLoop { status: LoopStatus::Accepting }
    }

    /// Whether the loop is accepting, and if not, why it stopped.
    pub fn status(&self) -> (status: LoopStatus)
        ensures
            status == self@,
    {
        self.status
    }

    /// Takes in one event and says what to do about it.
    pub fn step(&mut self, event: ForwardEvent) -> (action: ForwardAction)
        ensures
            action@ == action_on(old(self)@, event@),
            final(self)@ == status_after(old(self)@, event@),
    {
        if let LoopStatus::Stopped(reason) = self.status {
            return ForwardAction::Exit(reason);
        }
        match event {
            ForwardEvent::Connection(accepted) => match describe(accepted) {
                Some(descriptor) => ForwardAction::OpenStream(descriptor),
                None => ForwardAction::Continue,
            },
            ForwardEvent::AcceptFailed => self.stop_for(ExitReason::Fatal),
            ForwardEvent::Signal(ControlSignal::Shutdown) => self.stop_for(ExitReason::Shutdown),
            ForwardEvent::ControlClosed => self.stop_for(ExitReason::Shutdown),
        }
    }

    fn stop_for(&mut self, reason: ExitReason) -> (action: ForwardAction)
        ensures
            action@ == ForwardActionView::Exit(reason),
            final(self)@ == LoopStatus::Stopped(reason),
    {
        self.status = LoopStatus::Stopped(reason);
        ForwardAction::Exit(reason)
    }
}

} // verus!
