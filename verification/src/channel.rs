//! The crossbeam channel endpoints that connect an explorer to the
//! orchestrator and to its planet, and the calls the library makes on them.
//!
//! What a channel call returns depends on the peer at the other end, so no
//! contract here says which outcome comes back.

use vstd::prelude::*;

use crossbeam_channel::{Receiver, RecvError, SendError, Sender, TryRecvError};

verus! {

#[verifier::external_type_specification]
#[verifier::external_body]
#[verifier::reject_recursive_types(T)]
pub struct ExSender<T>(Sender<T>);

#[verifier::external_type_specification]
#[verifier::external_body]
#[verifier::reject_recursive_types(T)]
pub struct ExReceiver<T>(Receiver<T>);

#[verifier::external_type_specification]
#[verifier::external_body]
#[verifier::reject_recursive_types(T)]
pub struct ExSendError<T>(SendError<T>);

#[verifier::external_type_specification]
#[verifier::external_body]
pub struct ExRecvError(RecvError);

#[verifier::external_type_specification]
#[verifier::external_body]
pub struct ExTryRecvError(TryRecvError);

/// `Sender::send` hands the message to the channel; it fails, giving the
/// message back inside the error, when every receiver is gone. Which of the
/// two happens depends on the peer, so nothing is promised of the result.
pub assume_specification<T>[ Sender::<T>::send ](sender: &Sender<T>, msg: T) -> Result<(), SendError<T>>;

/// `Receiver::recv` blocks until a message arrives, or fails once the channel
/// is empty and every sender is gone. What comes back depends on the peer.
pub assume_specification<T>[ Receiver::<T>::recv ](receiver: &Receiver<T>) -> Result<T, RecvError>;

/// `Sender::clone` gives another handle on the same channel: it counts one
/// more sender on the shared channel and copies the handle, which points to
/// that channel, so the copy equals the original.
pub assume_specification<T>[ <Sender<T> as Clone>::clone ](sender: &Sender<T>) -> (copy: Sender<T>)
    ensures
        copy == *sender,
;

/// `Receiver::clone` gives another handle on the same channel: it counts one
/// more receiver on the shared channel and copies the handle, which points to
/// that channel (or, for a channel that never delivers, holds nothing), so the
/// copy equals the original.
pub assume_specification<T>[ <Receiver<T> as Clone>::clone ](receiver: &Receiver<T>) -> (copy: Receiver<T>)
    ensures
        copy == *receiver,
;

/// What a non-blocking receive found on a channel.
pub enum Polled<T> {
    /// A message was waiting and has been taken.
    Received(T),
    /// No message was waiting.
    Empty,
    /// No message was waiting and every sender is gone.
    Disconnected,
}

/// Calls `Receiver::try_recv` and tells its outcomes apart: a message,
/// `TryRecvError::Empty` or `TryRecvError::Disconnected`. Which one comes
/// back depends on the peer, so nothing is promised of it.
#[verifier::external_body]
pub(crate) fn try_receive<T>(receiver: &Receiver<T>) -> Polled<T> {
    match receiver.try_recv() {
        Ok(message) => Polled::Received(message),
        Err(TryRecvError::Empty) => Polled::Empty,
        Err(TryRecvError::Disconnected) => Polled::Disconnected,
    }
}

} // verus!
