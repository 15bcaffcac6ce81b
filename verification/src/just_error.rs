//! The `just_error` factory: a sender that completes immediately with an
//! error.

use crate::operation_state::OperationState;
use crate::receiver::SetError;
use crate::sender::Sender;
use vstd::prelude::*;

verus! {

/// Build a sender that, once connected and started, completes its receiver
/// through the error channel with `error`.
pub fn just_error<E>(error: E) -> (s: JustError<E>)
    ensures
        s == (JustError { error }),
{
    JustError::new(error)
}

/// A sender that completes with the single error it holds.
pub struct JustError<E> {
    pub error: E,
}

impl<E> JustError<E> {
    /// Wrap `error` in a sender that completes with it.
    pub fn new(error: E) -> (s: Self)
        ensures
            s == (JustError { error }),
    {
        JustError { error }
    }
}

/// The operation state of a connected `JustError` sender: it holds the error
/// and the receiver until it is started.
pub struct JustOperation<E, R> {
    pub error: Option<E>,
    pub receiver: Option<R>,
}

impl<E, R: SetError<Error = E>> OperationState for JustOperation<E, R> {
    type Output = R::Output;

    open spec fn ready(&self) -> bool {
        &&& self.error is Some
        &&& self.receiver is Some
        &&& self.receiver->0.error_pre(self.error->0)
    }

    open spec fn post(&self, out: R::Output) -> bool {
        self.error is Some && self.receiver is Some && self.receiver->0.error_post(
            self.error->0,
            out,
        )
    }

    fn start(&mut self) -> (out: R::Output) {
        let receiver = self.receiver.take().unwrap();
        let error = self.error.take().unwrap();
        receiver.set_error(error)
    }
}

impl<E, R: SetError<Error = E>> Sender<R> for JustError<E> {
    type Value = ();

    type Error = E;

    type Operation = JustOperation<E, R>;

    open spec fn connect_pre(self, receiver: R) -> bool {
        receiver.error_pre(self.error)
    }

    open spec fn delivery(self, receiver: R, out: R::Output) -> bool {
        receiver.error_post(self.error, out)
    }

    fn connect(self, receiver: R) -> (op: JustOperation<E, R>) {
        JustOperation { error: Some(self.error), receiver: Some(receiver) }
    }
}

/// The `JustError` sender's contract, written out: it may be connected to
/// any receiver that accepts its error, and it delivers exactly that error
/// through the receiver's error channel.
///
/// Verus does not expand these spec functions at every concrete
/// instantiation (composed receivers are bounded by the traits they
/// implement); this lemma hands a caller the definitions.
pub proof fn lemma_just_error_sender<E, R: SetError<Error = E>>(
    s: JustError<E>,
    receiver: R,
    out: R::Output,
)
    ensures
        s.connect_pre(receiver) <==> receiver.error_pre(s.error),
        s.delivery(receiver, out) <==> receiver.error_post(s.error, out),
{
}

} // verus!
