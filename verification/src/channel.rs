//! The wake signal channel: an unbounded queue of unit notifications with
//! many producers and one consumer, kept in a crossbeam channel.
//!
//! The channel is shared between threads, so nothing in this module claims
//! how many notifications it holds at any moment: the verified code around it
//! is written to be right whatever the channel answers.

use crossbeam::channel::{Receiver, RecvError, SendError, Sender};
use vstd::prelude::*;

verus! {

/// The sending end, `crossbeam::channel::Sender`, carried as an opaque value.
#[verifier::external_type_specification]
#[verifier::external_body]
#[verifier::reject_recursive_types(T)]
pub struct ExSender<T>(Sender<T>);

/// The receiving end, `crossbeam::channel::Receiver`, carried as an opaque
/// value.
#[verifier::external_type_specification]
#[verifier::external_body]
#[verifier::reject_recursive_types(T)]
pub struct ExReceiver<T>(Receiver<T>);

/// `crossbeam::channel::SendError`: the message that a disconnected channel
/// handed back.
#[verifier::external_type_specification]
#[verifier::external_body]
#[verifier::reject_recursive_types(T)]
pub struct ExSendError<T>(SendError<T>);

/// `crossbeam::channel::RecvError`: the channel is empty and no sender is
/// left.
#[verifier::external_type_specification]
#[verifier::external_body]
pub struct ExRecvError(RecvError);

/// `crossbeam::channel::unbounded` may be called freely. Nothing is claimed
/// of the two ends it returns.
pub assume_specification<T>[ crossbeam::channel::unbounded::<T> ]() -> (ends: (
    Sender<T>,
    Receiver<T>,
));

/// `Sender::send` may be called on any sender with any message. Nothing is
/// claimed of its answer: it is `Ok` while a receiver lives and `Err` once
/// every receiver is gone. On an unbounded channel it never blocks; on a full
/// bounded one it waits for room.
pub assume_specification<T>[ Sender::<T>::send ](sender: &Sender<T>, msg: T) -> (sent: Result<
    (),
    SendError<T>,
>);

/// `Receiver::recv` may be called on any receiver. It blocks until a message
/// arrives or the channel is empty and every sender is gone, and does not
/// return while neither happens. Nothing is claimed of its answer.
pub assume_specification<T>[ Receiver::<T>::recv ](receiver: &Receiver<T>) -> (received: Result<
    T,
    RecvError,
>);

/// `Receiver::len` may be called on any receiver. Nothing is claimed of the
/// count: other threads may send while it is taken.
pub assume_specification<T>[ Receiver::<T>::len ](receiver: &Receiver<T>) -> (count: usize);

} // verus!
