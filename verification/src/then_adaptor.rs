//! The value-transforming adaptor: it composes a sender with a function,
//! forwarding the error and stopped channels untouched.

use crate::just::{lemma_just_sender, Just};
use crate::just_error::{lemma_just_error_sender, JustError};
use crate::operation_state::OperationState;
use crate::receiver::{SetError, SetStopped, SetValue};
use crate::sender::Sender;
use core::marker::PhantomData;
use vstd::prelude::*;

verus! {

/// Compose `sender` with `func`: the resulting sender completes with
/// `func(v)` whenever `sender` completes with the value `v`, and forwards an
/// error or stopped completion of `sender` unchanged.
pub fn then_with<S, F, I>(sender: S, func: F) -> (s: Then<S, F, I>)
    ensures
        s.sender == sender,
        s.func == func,
{
    Then::new(sender, func)
}

/// A sender that applies a function to the value channel of an inner sender.
pub struct Then<S, F, I> {
    pub sender: S,
    pub func: F,
    pub _phantom: PhantomData<I>,
}

impl<S, F, I> Then<S, F, I> {
    /// Compose `sender` with `func`; equivalent to `then_with`.
    pub fn new(sender: S, func: F) -> (s: Self)
        ensures
            s.sender == sender,
            s.func == func,
    {
        Then { sender, func, _phantom: PhantomData }
    }
}

/// The internal receiver a `Then` sender interposes between the inner sender
/// and the outer receiver: on a value completion it applies the function and
/// forwards the result; error and stopped completions pass through unchanged
/// and the function is dropped without being invoked.
pub struct ThenReceiver<F, R, I> {
    pub func: F,
    pub receiver: R,
    pub _phantom: PhantomData<I>,
}

impl<F, R, I, O> SetValue for ThenReceiver<F, R, I> where
    F: FnOnce(I) -> O,
    R: SetValue<Value = O>,
 {
    type Value = I;

    type Output = R::Output;

    open spec fn value_pre(self, v: I) -> bool {
        &&& call_requires(self.func, (v,))
        &&& forall|o: O| #[trigger]
            call_ensures(self.func, (v,), o) ==> self.receiver.value_pre(o)
    }

    open spec fn value_post(self, v: I, out: R::Output) -> bool {
        exists|o: O|
            #[trigger] call_ensures(self.func, (v,), o) && self.receiver.value_post(o, out)
    }

    fn set_value(self, value: I) -> (out: R::Output) {
        let mid = (self.func)(value);
        self.receiver.set_value(mid)
    }
}

impl<F, R, I> SetError for ThenReceiver<F, R, I> where R: SetError {
    type Error = R::Error;

    type Output = <R as SetError>::Output;

    open spec fn error_pre(self, e: R::Error) -> bool {
        self.receiver.error_pre(e)
    }

    open spec fn error_post(self, e: R::Error, out: <R as SetError>::Output) -> bool {
        self.receiver.error_post(e, out)
    }

    fn set_error(self, error: R::Error) -> (out: <R as SetError>::Output) {
        self.receiver.set_error(error)
    }
}

impl<F, R, I> SetStopped for ThenReceiver<F, R, I> where R: SetStopped {
    type Output = <R as SetStopped>::Output;

    open spec fn stopped_pre(self) -> bool {
        self.receiver.stopped_pre()
    }

    open spec fn stopped_post(self, out: <R as SetStopped>::Output) -> bool {
        self.receiver.stopped_post(out)
    }

    fn set_stopped(self) -> (out: <R as SetStopped>::Output) {
        self.receiver.set_stopped()
    }
}

/// The operation state of a connected `Then` sender: it wraps the nested
/// operation state and forwards `start` to it.
pub struct ThenOperation<O> {
    pub operation: O,
}

impl<O: OperationState> OperationState for ThenOperation<O> {
    type Output = O::Output;

    open spec fn ready(&self) -> bool {
        self.operation.ready()
    }

    open spec fn post(&self, out: O::Output) -> bool {
        self.operation.post(out)
    }

    fn start(&mut self) -> (out: O::Output) {
        self.operation.start()
    }
}

impl<S, F, I, O, R> Sender<R> for Then<S, F, I> where
    S: Sender<ThenReceiver<F, R, I>>,
    F: FnOnce(I) -> O,
    R: SetValue<Value = O>,
 {
    type Value = O;

    type Error = S::Error;

    type Operation = ThenOperation<S::Operation>;

    open spec fn connect_pre(self, receiver: R) -> bool {
        self.sender.connect_pre(
            ThenReceiver { func: self.func, receiver, _phantom: PhantomData },
        )
    }

    open spec fn delivery(
        self,
        receiver: R,
        out: <S::Operation as OperationState>::Output,
    ) -> bool {
        self.sender.delivery(
            ThenReceiver { func: self.func, receiver, _phantom: PhantomData },
            out,
        )
    }

    fn connect(self, receiver: R) -> (op: ThenOperation<S::Operation>) {
        ThenOperation {
            operation: self.sender.connect(
                ThenReceiver { func: self.func, receiver, _phantom: PhantomData },
            ),
        }
    }
}

/// The composed receiver's value channel, written out: it accepts `v` when
/// the function accepts `v` and the inner receiver accepts every result the
/// function can produce, and its output is an output of the inner receiver
/// for some result of the function.
///
/// Verus does not expand the spec functions of `ThenReceiver`'s channel
/// implementations at concrete instantiations, because their implementations
/// are bounded by the very traits they implement; this lemma hands a caller
/// the definition.
pub proof fn lemma_then_receiver_value<F, R, I, O>(
    tr: ThenReceiver<F, R, I>,
    v: I,
    out: <R as SetValue>::Output,
) where F: FnOnce(I) -> O, R: SetValue<Value = O>
    ensures
        tr.value_pre(v) <==> (call_requires(tr.func, (v,)) && (forall|o: O| #[trigger]
            call_ensures(tr.func, (v,), o) ==> tr.receiver.value_pre(o))),
        tr.value_post(v, out) <==> (exists|o: O|
            #[trigger] call_ensures(tr.func, (v,), o) && tr.receiver.value_post(o, out)),
{
}

/// Law: the adaptor forwards errors untouched. Completing the composed
/// receiver through the error channel is exactly completing the inner
/// receiver with the same error; the stored function plays no part in it.
pub proof fn lemma_then_forwards_error<F, R, I>(
    tr: ThenReceiver<F, R, I>,
    e: R::Error,
    out: <R as SetError>::Output,
) where R: SetError
    ensures
        tr.error_pre(e) <==> tr.receiver.error_pre(e),
        tr.error_post(e, out) <==> tr.receiver.error_post(e, out),
{
}

/// Law: the adaptor forwards the stopped signal untouched, as it does
/// errors.
pub proof fn lemma_then_forwards_stopped<F, R, I>(
    tr: ThenReceiver<F, R, I>,
    out: <R as SetStopped>::Output,
) where R: SetStopped
    ensures
        tr.stopped_pre() <==> tr.receiver.stopped_pre(),
        tr.stopped_post(out) <==> tr.receiver.stopped_post(out),
{
}

/// The composed sender's contract, written out: connecting `Then` to a
/// receiver is connecting the inner sender to the composed receiver, so its
/// connection precondition and its delivery relation are the inner sender's,
/// taken at the composed receiver.
pub proof fn lemma_then_sender<S, F, I, O, R>(
    s: Then<S, F, I>,
    receiver: R,
    out: <S::Operation as OperationState>::Output,
) where S: Sender<ThenReceiver<F, R, I>>, F: FnOnce(I) -> O, R: SetValue<Value = O>
    ensures
        s.connect_pre(receiver) <==> s.sender.connect_pre(
            (ThenReceiver { func: s.func, receiver, _phantom: PhantomData }),
        ),
        s.delivery(receiver, out) <==> s.sender.delivery(
            (ThenReceiver { func: s.func, receiver, _phantom: PhantomData }),
            out,
        ),
{
}

/// Law: a failing sender composed through the adaptor delivers its error
/// untouched. Whatever function the adaptor carries, connecting the
/// composition to a receiver asks no more than that the receiver accept the
/// error, and the delivered output is exactly the receiver's own error
/// completion for it.
pub proof fn lemma_then_error_untouched<E, F, I, R>(
    e: E,
    f: F,
    receiver: R,
    out: <R as SetError>::Output,
) where
    R: SetValue + SetError<Error = E>,
    F: FnOnce(I) -> <R as SetValue>::Value,

    ensures
        (Then {
            sender: JustError { error: e },
            func: f,
            _phantom: PhantomData::<I>,
        }).connect_pre(receiver) <==> receiver.error_pre(e),
        (Then {
            sender: JustError { error: e },
            func: f,
            _phantom: PhantomData::<I>,
        }).delivery(receiver, out) <==> receiver.error_post(e, out),
{
    let tr = (ThenReceiver { func: f, receiver, _phantom: PhantomData::<I> });
    let s = (Then { sender: JustError { error: e }, func: f, _phantom: PhantomData::<I> });
    lemma_then_sender(s, receiver, out);
    lemma_just_error_sender((JustError { error: e }), tr, out);
    lemma_then_forwards_error(tr, e, out);
}

/// Law: composition of value transforms is associative. If `h` behaves as
/// `g` after `f` (its possible results on `v` are exactly the results of
/// `g` on the possible results of `f` on `v`), then transforming a value
/// sender by `f` and then by `g` delivers exactly what transforming it by
/// `h` in one step delivers, to every receiver and output.
pub proof fn lemma_then_associative<T, M, N, F, G, H, R>(
    x: T,
    f: F,
    g: G,
    h: H,
    receiver: R,
    out: <R as SetValue>::Output,
) where
    F: FnOnce(T) -> M,
    G: FnOnce(M) -> N,
    H: FnOnce(T) -> N,
    R: SetValue<Value = N>,

    requires
        forall|v: T, o: N| #[trigger]
            call_ensures(h, (v,), o) <==> (exists|m: M|
                #[trigger] call_ensures(f, (v,), m) && call_ensures(g, (m,), o)),
    ensures
        (Then {
            sender: Then { sender: Just { value: x }, func: f, _phantom: PhantomData::<T> },
            func: g,
            _phantom: PhantomData::<M>,
        }).delivery(receiver, out) <==> (Then {
            sender: Just { value: x },
            func: h,
            _phantom: PhantomData::<T>,
        }).delivery(receiver, out),
{
    let rg = (ThenReceiver { func: g, receiver, _phantom: PhantomData::<M> });
    let rf = (ThenReceiver { func: f, receiver: rg, _phantom: PhantomData::<T> });
    let rh = (ThenReceiver { func: h, receiver, _phantom: PhantomData::<T> });
    let inner = (Then { sender: Just { value: x }, func: f, _phantom: PhantomData::<T> });
    let lhs = (Then { sender: inner, func: g, _phantom: PhantomData::<M> });
    let rhs = (Then { sender: Just { value: x }, func: h, _phantom: PhantomData::<T> });
    lemma_then_sender(lhs, receiver, out);
    lemma_then_sender(inner, rg, out);
    lemma_just_sender((Just { value: x }), rf, out);
    lemma_then_receiver_value(rf, x, out);
    assert forall|m: M|
        rg.value_post(m, out) <==> (exists|o: N|
            #[trigger] call_ensures(g, (m,), o) && receiver.value_post(o, out)) by {
        lemma_then_receiver_value(rg, m, out);
    }
    lemma_then_sender(rhs, receiver, out);
    lemma_just_sender((Just { value: x }), rh, out);
    lemma_then_receiver_value(rh, x, out);
    if exists|m: M| #[trigger] call_ensures(f, (x,), m) && rg.value_post(m, out) {
        let m = choose|m: M| #[trigger] call_ensures(f, (x,), m) && rg.value_post(m, out);
        let o = choose|o: N| #[trigger] call_ensures(g, (m,), o) && receiver.value_post(o, out);
        assert(call_ensures(h, (x,), o));
        assert(rh.value_post(x, out));
    }
    if exists|o: N| #[trigger] call_ensures(h, (x,), o) && receiver.value_post(o, out) {
        let o = choose|o: N| #[trigger] call_ensures(h, (x,), o) && receiver.value_post(o, out);
        let m = choose|m: M| #[trigger] call_ensures(f, (x,), m) && call_ensures(g, (m,), o);
        assert(rg.value_post(m, out));
        assert(rf.value_post(x, out));
    }
}

} // verus!
