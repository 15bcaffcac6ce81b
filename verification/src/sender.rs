//! Senders: inert, composable descriptions of asynchronous work.

use crate::operation_state::OperationState;
use vstd::prelude::*;

verus! {

/// A sender describes a unit of asynchronous work that, once connected to a
/// receiver `R` and started, completes through exactly one of the receiver's
/// channels.
///
/// A sender is a pure composition value: it owns nothing until connected,
/// and `connect` is the only place where sender-specific and
/// receiver-specific code meet. The semantic content of a sender is its
/// `delivery` relation: every output the connected-and-started operation can
/// hand back satisfies `delivery(receiver, out)`, and each implementation
/// defines that relation from the receiver's own channel postconditions, so
/// a chain of adaptors unfolds into an exact statement about the payload
/// that reaches the final receiver.
pub trait Sender<R>: Sized {
    /// The type of value this sender completes with.
    type Value;

    /// The type of error this sender completes with.
    type Error;

    /// The operation state produced by connecting this sender.
    type Operation: OperationState;

    /// When this sender may be connected to `receiver`: everything the
    /// eventual delivery requires of the receiver's channels.
    spec fn connect_pre(self, receiver: R) -> bool;

    /// The relation between the receiver this sender was connected to and
    /// the output its operation delivers.
    spec fn delivery(
        self,
        receiver: R,
        out: <Self::Operation as OperationState>::Output,
    ) -> bool;

    /// Connect this sender to `receiver`, consuming both and producing the
    /// operation state. Connecting never itself begins execution.
    fn connect(self, receiver: R) -> (op: Self::Operation)
        requires
            self.connect_pre(receiver),
        ensures
            op.ready(),
            forall|out: <Self::Operation as OperationState>::Output|
                #[trigger] op.post(out) ==> self.delivery(receiver, out),
    ;
}

} // verus!
