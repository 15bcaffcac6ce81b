//! The fire-and-detach consumer: start a sender and walk away.
//!
//! Detached work is assumed not to fail: a caller with fallible work must
//! handle the error before detaching. The receiver used here therefore
//! refuses the error channel outright (`error_pre` is never satisfied), so a
//! sender can only be detached when it is known not to complete with an
//! error.

use crate::operation_state::OperationState;
use crate::receiver::{SetError, SetStopped, SetValue};
use crate::sender::Sender;
use crate::submit::{submit, SubmitReceiver};
use core::marker::PhantomData;
use vstd::prelude::*;

verus! {

/// The receiver `start_detached` uses: it ignores values and the stopped
/// signal, and its error channel is unreachable by contract.
pub struct StartDetachedReceiver<V, E> {
    pub _phantom: PhantomData<(V, E)>,
}

impl<V, E> SetValue for StartDetachedReceiver<V, E> {
    type Value = V;

    type Output = ();

    open spec fn value_pre(self, v: V) -> bool {
        true
    }

    open spec fn value_post(self, v: V, out: ()) -> bool {
        true
    }

    fn set_value(self, value: V) -> (out: ()) {
    }
}

impl<V, E> SetError for StartDetachedReceiver<V, E> {
    type Error = E;

    type Output = ();

    open spec fn error_pre(self, e: E) -> bool {
        // detached work must not fail: no error may be delivered here
        false
    }

    open spec fn error_post(self, e: E, out: ()) -> bool {
        true
    }

    fn set_error(self, error: E) -> (out: ()) {
    }
}

impl<V, E> SetStopped for StartDetachedReceiver<V, E> {
    type Output = ();

    open spec fn stopped_pre(self) -> bool {
        true
    }

    open spec fn stopped_post(self, out: ()) -> bool {
        true
    }

    fn set_stopped(self) -> (out: ()) {
    }
}

/// Start `sender` with no one waiting for its outcome. The connection
/// precondition rules out senders that would deliver an error: detached work
/// is assumed not to fail.
pub fn start_detached<S, V, E>(sender: S) where
    S: Sender<SubmitReceiver<StartDetachedReceiver<V, E>>, Value = V, Error = E>,

    requires
        sender.connect_pre(
            (SubmitReceiver { receiver: StartDetachedReceiver { _phantom: PhantomData } }),
        ),
    ensures
        exists|out: <S::Operation as OperationState>::Output|
            sender.delivery(
                (SubmitReceiver { receiver: StartDetachedReceiver { _phantom: PhantomData } }),
                out,
            ),
{
    let receiver = StartDetachedReceiver { _phantom: PhantomData };
    submit(sender, receiver);
}

} // verus!
