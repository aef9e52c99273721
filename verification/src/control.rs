//! The control channel between a running session and its forwarding loop.
//!
//! The channel is tokio's unbounded channel. Its two ends are opaque here: the
//! session keeps the sender, the loop gets the receiver, and the only thing
//! ever sent is [`ControlSignal::Shutdown`].

use vstd::prelude::*;

verus! {

/// What a session can tell its forwarding loop.
#[derive(Clone, Copy, Debug, PartialEq, Eq, Structural)]
pub enum ControlSignal {
    /// Stop accepting connections and return.
    Shutdown,
}

/// The sending end of tokio's unbounded channel, carried as an opaque value.
#[verifier::external_type_specification]
#[verifier::external_body]
#[verifier::reject_recursive_types(T)]
pub struct ExUnboundedSender<T>(tokio::sync::mpsc::UnboundedSender<T>);

/// The receiving end of tokio's unbounded channel, carried as an opaque value.
#[verifier::external_type_specification]
#[verifier::external_body]
#[verifier::reject_recursive_types(T)]
pub struct ExUnboundedReceiver<T>(tokio::sync::mpsc::UnboundedReceiver<T>);

/// The error of a send on a closed channel, which holds the rejected message.
#[verifier::external_type_specification]
#[verifier::external_body]
#[verifier::reject_recursive_types(T)]
pub struct ExSendError<T>(tokio::sync::mpsc::error::SendError<T>);

/// `tokio::sync::mpsc::unbounded_channel` makes a new channel and returns its
/// two ends. Nothing is claimed of them: which channel an end belongs to is
/// not something a value of these types shows.
pub assume_specification<T>[ tokio::sync::mpsc::unbounded_channel::<T> ]() -> (ends: (
    tokio::sync::mpsc::UnboundedSender<T>,
    tokio::sync::mpsc::UnboundedReceiver<T>,
));

/// `UnboundedSender::send` queues the message without waiting, or fails when
/// the receiving end has been closed or dropped. Which of the two happens
/// depends on what the holder of the receiver has done, so nothing is claimed
/// of the result. (It ends the process where the count of queued messages
/// would overflow a `usize`; memory runs out long before.)
pub assume_specification<T>[ tokio::sync::mpsc::UnboundedSender::<T>::send ](
    sender: &tokio::sync::mpsc::UnboundedSender<T>,
    message: T,
) -> (sent: Result<(), tokio::sync::mpsc::error::SendError<T>>);

} // verus!
