//! The engine: one future, one wake signal channel, one wake handle.
//!
//! A drive is a chain of steps. `WasmRuntimeAsyncEngine::start` gives the
//! first one, `Step::advance` carries a step out and gives the next, and the
//! chain ends with `Step::Return`. Carrying out a step makes one outside call,
//! a blocking receive or a poll of the future; `react` decides what follows
//! from what that call reported.

use crate::reactor::Reactor;
use crate::waker::{waker_from, FutureWaker};
use crossbeam::channel::{Receiver, Sender};
use futures::FutureExt;
use std::future::Future;
use std::pin::Pin;
use std::sync::Arc;
use std::task::{Context, Poll, Waker};
use vstd::prelude::*;

verus! {

/// `std::pin::Pin`, carried as an opaque value.
#[verifier::external_type_specification]
#[verifier::external_body]
#[verifier::reject_recursive_types(P)]
pub struct ExPin<P>(Pin<P>);

/// The async engine instance: the receiving end of a wake signal channel and
/// the wake handle that feeds it.
///
/// The engine keeps the handle, and with it a sender, for as long as it
/// lives, so its channel is never closed under it.
pub struct WasmRuntimeAsyncEngine {
    waker: Arc<FutureWaker>,
    recv: Receiver<()>,
}

/// A future under drive: the engine, the waker handed to every poll, and the
/// future itself, pinned for as long as it is driven.
#[verifier::reject_recursive_types(F)]
pub struct Driver<F> {
    engine: WasmRuntimeAsyncEngine,
    waker: Waker,
    future: Pin<Box<F>>,
}

/// What the driver is told after one outside call. `D` is the driver that
/// goes on, `K` the future's output.
pub enum Event<K, D> {
    /// The blocking receive handed over one notification.
    Notified(D),
    /// The blocking receive failed: the channel is empty and has no sender.
    Disconnected(D),
    /// The poll returned pending.
    Pending(D),
    /// The poll returned the future's value.
    Ready(K),
}

/// What the driver does next. `D` is the driver that goes on, `K` the
/// future's output.
pub enum Step<K, D> {
    /// Block on the channel until a notification arrives.
    Wait(D),
    /// Poll the future once.
    Poll(D),
    /// Hand the value to the caller: the drive is over.
    Return(K),
}

/// The drive loop's decision table.
///
/// A notification buys exactly one poll. A ready poll ends the drive with the
/// value as it came. A pending poll, or a receive that failed, sends the
/// driver back to the channel.
pub open spec fn next_step<K, D>(event: Event<K, D>) -> Step<K, D> {
    match event {
        Event::Notified(driver) => Step::Poll(driver),
        Event::Disconnected(driver) => Step::Wait(driver),
        Event::Pending(driver) => Step::Wait(driver),
        Event::Ready(value) => Step::Return(value),
    }
}

/// Decides what follows `event`.
pub fn react<K, D>(event: Event<K, D>) -> (step: Step<K, D>)
    ensures
        step == next_step(event),
{
    match event {
        Event::Notified(driver) => Step::Poll(driver),
        Event::Disconnected(driver) => Step::Wait(driver),
        Event::Pending(driver) => Step::Wait(driver),
        Event::Ready(value) => Step::Return(value),
    }
}

impl WasmRuntimeAsyncEngine {
    /// A fresh engine: a new channel and a wake handle bound to it.
    pub fn new() -> (engine: Self) {
        let (sender, recv) = crossbeam::channel::unbounded();
        WasmRuntimeAsyncEngine::from_channel(sender, recv)
    }

    /// A waker that delegates to the engine's wake handle.
    pub fn waker(&self) -> (waker: Waker) {
        waker_from(self.waker.clone())
    }

    /// The number of notifications queued at the moment of the call.
    pub fn queued(&self) -> (count: usize) {
        self.recv.len()
    }

    /// Begins a drive: builds the future from `async_closure`, pins it, binds
    /// a fresh engine to it and queues the priming notification. The first
    /// step is to wait; the priming notification lets that wait return at
    /// once, so the future is polled at least once.
    pub fn start<K, F: Future<Output = K>, Fun: FnOnce(Reactor) -> F>(async_closure: Fun) -> (step:
        Step<K, Driver<F>>)
        requires
            async_closure.requires((Reactor,)),
        ensures
            step is Wait,
    {
        let reactor = Reactor;
        let future = pin_boxed(async_closure(reactor));
        let engine = WasmRuntimeAsyncEngine::new();
        let waker = engine.waker();
        engine.waker.wake_inner();
        Driver::begin(engine, waker, future)
    }
}

impl<F> Driver<F> {
    /// The engine that the driver is bound to.
    pub closed spec fn engine(self) -> WasmRuntimeAsyncEngine {
        self.engine
    }

    /// The waker that the driver hands to every poll.
    pub closed spec fn waker(self) -> Waker {
        self.waker
    }
}

impl<K, F: Future<Output = K>> Driver<F> {
    /// The number of notifications queued at the moment of the call.
    pub fn queued(&self) -> (count: usize) {
        self.engine.queued()
    }

    /// Blocks the calling thread until the channel hands over a notification,
    /// and reports it. The driver goes on as it was.
    pub fn park(self) -> (event: Event<K, Driver<F>>)
        ensures
            event == Event::<K, Driver<F>>::Notified(self) || event == Event::<
                K,
                Driver<F>,
            >::Disconnected(self),
    {
        match self.engine.recv.recv() {
            Ok(_) => Event::Notified(self),
            Err(_) => Event::Disconnected(self),
        }
    }

    /// Polls the future once, with the driver's own waker, and reports what
    /// the poll returned. A driver that goes on keeps its engine and its
    /// waker; one whose future is ready is gone, so a finished future is never
    /// polled again.
    pub fn poll_once(self) -> (event: Event<K, Driver<F>>)
        ensures
            match event {
                Event::Ready(_) => true,
                Event::Pending(rest) => rest.engine() == self.engine() && rest.waker()
                    == self.waker(),
                _ => false,
            },
    {
        let Driver { engine, waker, future } = self;
        let polled = poll_pinned(future, &waker);
        Driver::settle(engine, waker, polled)
    }

    /// Reports what one poll returned. A ready poll gives its value as it
    /// came. A pending one gives back the future, and the driver goes on with
    /// it, with the engine and the waker it had.
    pub(crate) fn settle(
        engine: WasmRuntimeAsyncEngine,
        waker: Waker,
        polled: Result<K, Pin<Box<F>>>,
    ) -> (event: Event<K, Driver<F>>)
        ensures
            match polled {
                Ok(value) => event == Event::<K, Driver<F>>::Ready(value),
                Err(future) => event matches Event::Pending(rest) && rest.engine() == engine
                    && rest.waker() == waker && rest.future() == future,
            },
    {
        match polled {
            Ok(value) => Event::Ready(value),
            Err(future) => Event::Pending(Driver { engine, waker, future }),
        }
    }
}

impl<F> Driver<F> {
    /// The future under drive, pinned.
    pub closed spec fn future(self) -> Pin<Box<F>> {
        self.future
    }

    /// The first step of a drive on these parts: the driver is made of them
    /// as they are, and it waits.
    pub(crate) fn begin<K>(engine: WasmRuntimeAsyncEngine, waker: Waker, future: Pin<Box<F>>) -> (step:
        Step<K, Driver<F>>)
        ensures
            step matches Step::Wait(driver) && driver.engine() == engine && driver.waker() == waker
                && driver.future() == future,
    {
        Step::Wait(Driver { engine, waker, future })
    }
}

impl WasmRuntimeAsyncEngine {
    /// The wake handle that the engine keeps.
    pub closed spec fn handle(self) -> FutureWaker {
        *self.waker
    }

    /// The receiving end that the engine reads.
    pub closed spec fn receiver(self) -> Receiver<()> {
        self.recv
    }

    /// An engine on the two ends of a channel: its wake handle wraps `sender`
    /// and it reads `recv`. The caller answers for the two being ends of one
    /// channel; `new` makes them so.
    pub fn from_channel(sender: Sender<()>, recv: Receiver<()>) -> (engine: Self)
        ensures
            engine.handle().sender() == sender,
            engine.receiver() == recv,
    {
        WasmRuntimeAsyncEngine { waker: Arc::new(FutureWaker::new(sender)), recv }
    }
}

impl<K, F: Future<Output = K>> Step<K, Driver<F>> {
    /// Carries the step out and decides the next one: a wait parks the driver
    /// on the channel, a poll polls the future once, and `react` decides on
    /// what came back. A returned value stays as it is.
    pub fn advance(self) -> (next: Self)
        ensures
            match self {
                Step::Wait(driver) => next == next_step(Event::<K, Driver<F>>::Notified(driver))
                    || next == next_step(Event::<K, Driver<F>>::Disconnected(driver)),
                Step::Poll(driver) => match next {
                    Step::Return(_) => true,
                    Step::Wait(rest) => rest.engine() == driver.engine() && rest.waker()
                        == driver.waker(),
                    Step::Poll(_) => false,
                },
                Step::Return(_) => next == self,
            },
    {
        match self {
            Step::Wait(driver) => react(driver.park()),
            Step::Poll(driver) => react(driver.poll_once()),
            Step::Return(value) => Step::Return(value),
        }
    }
}

/// `Box::pin`: moves the future to the heap and pins it there. Nothing is
/// claimed of the pinned box.
#[verifier::external_body]
fn pin_boxed<F>(future: F) -> (pinned: Pin<Box<F>>) {
    Box::pin(future)
}

/// `futures::FutureExt::poll_unpin` on the pinned box, with a context made of
/// `waker` by `Context::from_waker`: one poll of the future. A ready poll
/// gives the value and lets go of the future; a pending one gives the future
/// back. Nothing is claimed of which it is, nor of the value.
#[verifier::external_body]
fn poll_pinned<F: Future>(future: Pin<Box<F>>, waker: &Waker) -> (polled: Result<
    F::Output,
    Pin<Box<F>>,
>) {
    let mut future = future;
    match future.poll_unpin(&mut Context::from_waker(waker)) {
        Poll::Ready(value) => Ok(value),
        Poll::Pending => Err(future),
    }
}

} // verus!
