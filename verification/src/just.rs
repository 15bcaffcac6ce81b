//! The `just` factory: a sender that completes immediately with a value.

use crate::operation_state::OperationState;
use crate::receiver::SetValue;
use crate::sender::Sender;
use vstd::prelude::*;

verus! {

/// Build a sender that, once connected and started, completes its receiver
/// through the value channel with `value`.
pub fn just<T>(value: T) -> (s: Just<T>)
    ensures
        s == (Just { value }),
{
    Just::new(value)
}

/// A sender that completes with the single value it holds.
pub struct Just<T> {
    pub value: T,
}

impl<T> Just<T> {
    /// Wrap `value` in a sender that completes with it.
    pub fn new(value: T) -> (s: Self)
        ensures
            s == (Just { value }),
    {
        Just { value }
    }
}

/// The operation state of a connected `Just` sender: it holds the value and
/// the receiver until it is started.
pub struct JustOperation<T, R> {
    pub data: Option<T>,
    pub receiver: Option<R>,
}

impl<T, R: SetValue<Value = T>> OperationState for JustOperation<T, R> {
    type Output = R::Output;

    open spec fn ready(&self) -> bool {
        &&& self.data is Some
        &&& self.receiver is Some
        &&& self.receiver->0.value_pre(self.data->0)
    }

    open spec fn post(&self, out: R::Output) -> bool {
        self.data is Some && self.receiver is Some && self.receiver->0.value_post(
            self.data->0,
            out,
        )
    }

    fn start(&mut self) -> (out: R::Output) {
        let receiver = self.receiver.take().unwrap();
        let data = self.data.take().unwrap();
        receiver.set_value(data)
    }
}

impl<T, R: SetValue<Value = T>> Sender<R> for Just<T> {
    type Value = T;

    type Error = ();

    type Operation = JustOperation<T, R>;

    open spec fn connect_pre(self, receiver: R) -> bool {
        receiver.value_pre(self.value)
    }

    open spec fn delivery(self, receiver: R, out: R::Output) -> bool {
        receiver.value_post(self.value, out)
    }

    fn connect(self, receiver: R) -> (op: JustOperation<T, R>) {
        JustOperation { data: Some(self.value), receiver: Some(receiver) }
    }
}

/// The `Just` sender's contract, written out: it may be connected to any
/// receiver that accepts its value, and it delivers exactly that value
/// through the receiver's value channel.
///
/// Verus does not expand these spec functions at every concrete
/// instantiation (composed receivers are bounded by the traits they
/// implement); this lemma hands a caller the definitions.
pub proof fn lemma_just_sender<T, R: SetValue<Value = T>>(s: Just<T>, receiver: R, out: R::Output)
    ensures
        s.connect_pre(receiver) <==> receiver.value_pre(s.value),
        s.delivery(receiver, out) <==> receiver.value_post(s.value, out),
{
}

} // verus!
