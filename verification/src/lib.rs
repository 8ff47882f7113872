//! A single-future cooperative task driver.
//!
//! One asynchronous computation is driven to completion on the calling
//! thread. The driver blocks on a channel of wake notifications between polls
//! instead of spinning, and every wake handle feeds that one channel.
//!
//! - `channel`: the wake signal channel, a crossbeam channel of unit
//!   notifications.
//! - `waker`: the wake handle behind the wakers that the engine hands out.
//! - `reactor`: the facade through which a future asks the host which of its
//!   resources are ready.
//! - `engine`: the engine, the driver and the steps of a drive.
//! - `protocol`: the laws of a drive, proved over a model of the channel and
//!   the future.

pub mod channel;
pub mod engine;
pub mod protocol;
pub mod reactor;
pub mod waker;

pub use engine::{react, Driver, Event, Step, WasmRuntimeAsyncEngine};
pub use reactor::Reactor;
pub use waker::FutureWaker;
