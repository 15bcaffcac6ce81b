//! The heap-escaping submit consumer.
//!
//! In its classical form, submit exists because an operation state must
//! outlive the stack frame that created it: the operation is moved to the
//! heap behind a proxy receiver that forwards the completion and then frees
//! the block. Here ownership does that work: the operation lives in
//! `submit`'s own frame, the proxy receiver forwards each channel untouched,
//! and the completion's output is handed back to the caller when `submit`
//! returns.

use crate::operation_state::OperationState;
use crate::receiver::{SetError, SetStopped, SetValue};
use crate::sender::Sender;
use vstd::prelude::*;

verus! {

/// The proxy receiver `submit` wraps around the caller's receiver: every
/// completion channel forwards to the wrapped receiver unchanged.
pub struct SubmitReceiver<R> {
    pub receiver: R,
}

impl<R: SetValue> SetValue for SubmitReceiver<R> {
    type Value = R::Value;

    type Output = <R as SetValue>::Output;

    open spec fn value_pre(self, v: R::Value) -> bool {
        self.receiver.value_pre(v)
    }

    open spec fn value_post(self, v: R::Value, out: <R as SetValue>::Output) -> bool {
        self.receiver.value_post(v, out)
    }

    fn set_value(self, value: R::Value) -> (out: <R as SetValue>::Output) {
        self.receiver.set_value(value)
    }
}

impl<R: SetError> SetError for SubmitReceiver<R> {
    type Error = R::Error;

    type Output = <R as SetError>::Output;

    open spec fn error_pre(self, e: R::Error) -> bool {
        self.receiver.error_pre(e)
    }

    open spec fn error_post(self, e: R::Error, out: <R as SetError>::Output) -> bool {
        self.receiver.error_post(e, out)
    }

    fn set_error(self, error: R::Error) -> (out: <R as SetError>::Output) {
        self.receiver.set_error(error)
    }
}

impl<R: SetStopped> SetStopped for SubmitReceiver<R> {
    type Output = <R as SetStopped>::Output;

    open spec fn stopped_pre(self) -> bool {
        self.receiver.stopped_pre()
    }

    open spec fn stopped_post(self, out: <R as SetStopped>::Output) -> bool {
        self.receiver.stopped_post(out)
    }

    fn set_stopped(self) -> (out: <R as SetStopped>::Output) {
        self.receiver.set_stopped()
    }
}

/// Connect `sender` to `receiver` behind the forwarding proxy, start the
/// operation at once, and hand back the completion's output.
pub fn submit<S, R>(sender: S, receiver: R) -> (out: <S::Operation as OperationState>::Output) where
    S: Sender<SubmitReceiver<R>>,

    requires
        sender.connect_pre((SubmitReceiver { receiver })),
    ensures
        sender.delivery((SubmitReceiver { receiver }), out),
{
    let mut op = sender.connect(SubmitReceiver { receiver });
    op.start()
}

/// The proxy receiver's contract, written out: each channel behaves exactly
/// as the wrapped receiver's channel.
///
/// Verus does not expand the spec functions of `SubmitReceiver`'s channel
/// implementations at concrete instantiations, because their implementations
/// are bounded by the very traits they implement; this lemma hands a caller
/// the definitions.
pub proof fn lemma_submit_receiver_value<R: SetValue>(
    sr: SubmitReceiver<R>,
    v: R::Value,
    out: <R as SetValue>::Output,
)
    ensures
        sr.value_pre(v) <==> sr.receiver.value_pre(v),
        sr.value_post(v, out) <==> sr.receiver.value_post(v, out),
{
}

/// The proxy receiver's error channel, written out, as
/// `lemma_submit_receiver_value` does for the value channel.
pub proof fn lemma_submit_receiver_error<R: SetError>(
    sr: SubmitReceiver<R>,
    e: R::Error,
    out: <R as SetError>::Output,
)
    ensures
        sr.error_pre(e) <==> sr.receiver.error_pre(e),
        sr.error_post(e, out) <==> sr.receiver.error_post(e, out),
{
}

} // verus!
