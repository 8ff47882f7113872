//! The reactor: the facade through which a future asks which of its resources
//! are ready.

use vstd::prelude::*;

verus! {

/// The reactor handed to the future when it is built. It owns nothing: every
/// copy is interchangeable with every other.
pub struct Reactor;

impl Clone for Reactor {
    fn clone(&self) -> (copy: Self)
        ensures
            copy == *self,
    {
        Reactor
    }
}

impl Reactor {
    /// Asks the host's readiness primitive which of `polls` are ready and
    /// hands its answer back untouched: the indices into `polls` of the ready
    /// handles.
    ///
    /// The call runs on the calling thread, which the primitive may block until
    /// a handle is ready. The reactor keeps no state and adds no queuing of its
    /// own.
    pub fn poll<H, P: FnOnce(&[&H]) -> Vec<u32>>(primitive: P, polls: &[&H]) -> (ready: Vec<u32>)
        requires
            primitive.requires((polls,)),
        ensures
            primitive.ensures((polls,), ready),
    {
        primitive(polls)
    }
}

} // verus!
