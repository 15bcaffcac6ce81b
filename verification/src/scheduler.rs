//! The scheduler abstraction.

use vstd::prelude::*;

verus! {

/// A handle onto an execution context. Its only operation produces a sender
/// whose job is to deliver a "you are now running on this context" unit
/// value completion to whatever receiver it is connected to.
///
/// A scheduler is safely shareable across the threads that will use it, so
/// it must be `Clone`.
pub trait Scheduler<R>: Sized + Clone {
    /// The sender type `schedule` produces.
    type Sender;

    /// The sender `schedule` returns.
    spec fn schedule_spec(&self) -> Self::Sender;

    /// Produce a sender that completes with the unit value once the target
    /// context runs it.
    fn schedule(&mut self) -> (s: Self::Sender)
        ensures
            s == old(self).schedule_spec(),
    ;
}

} // verus!
