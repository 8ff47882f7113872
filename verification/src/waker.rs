//! The wake handle: the object behind every waker that the engine hands out.

use crossbeam::channel::Sender;
use std::sync::Arc;
use std::task::{Wake, Waker};
use vstd::prelude::*;

verus! {

/// `std::task::Waker`, carried as an opaque value.
#[verifier::external_type_specification]
#[verifier::external_body]
pub struct ExWaker(Waker);

/// A wake handle bound to one wake signal channel. Waking it queues one
/// notification there.
pub struct FutureWaker(Sender<()>);

impl FutureWaker {
    /// Binds a handle to the channel that `sender` feeds.
    pub(crate) fn new(sender: Sender<()>) -> (handle: Self)
        ensures
            handle.sender() == sender,
    {
        FutureWaker(sender)
    }

    /// The sending end that the handle wraps: every wake is one send on it.
    pub closed spec fn sender(self) -> Sender<()> {
        self.0
    }

    /// Queues one notification. It may be called at any time and from any
    /// thread, also from inside a poll and after the drive is over. Once the
    /// receiving side is gone the send fails, and the failure is dropped here:
    /// a wake is fire-and-forget.
    pub fn wake_inner(&self) {
        let _ = self.0.send(());
    }
}

impl Wake for FutureWaker {
    fn wake(self: Arc<Self>) {
        self.wake_inner();
    }
}

/// `Waker::from` on a shared wake handle: a waker whose wake calls are those
/// of the handle. Nothing is claimed of the waker it returns.
#[verifier::external_body]
pub(crate) fn waker_from(handle: Arc<FutureWaker>) -> (waker: Waker) {
    Waker::from(handle)
}

} // verus!
