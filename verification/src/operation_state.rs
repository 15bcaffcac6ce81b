//! Operation states: the concrete records produced by connecting a sender to
//! a receiver.

use vstd::prelude::*;

verus! {

/// The record produced by `Sender::connect`. It owns whatever storage the
/// sender's execution needs (the captured receiver, intermediate data,
/// nested child operation states), and is started exactly once.
///
/// Starting the operation delivers exactly one completion to the captured
/// receiver and hands the receiver's output back. The contract enforces the
/// protocol: `start` may only be called while the operation is `ready`, and
/// afterwards it never is again, so an operation cannot be started twice.
pub trait OperationState: Sized {
    /// What the captured receiver hands back when the completion is
    /// delivered to it.
    type Output;

    /// Whether the operation may still be started: it holds its receiver and
    /// everything the delivery requires of it.
    spec fn ready(&self) -> bool;

    /// The relation every output delivered by this operation satisfies.
    spec fn post(&self, out: Self::Output) -> bool;

    /// Begin execution, delivering the completion to the captured receiver.
    fn start(&mut self) -> (out: Self::Output)
        requires
            old(self).ready(),
        ensures
            old(self).post(out),
            !final(self).ready(),
    ;
}

} // verus!
