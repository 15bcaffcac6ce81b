//! The blocking-wait consumer: it runs a sender to completion on the calling
//! thread and returns the outcome synchronously.
//!
//! In a setting where completion may arrive from another thread, this
//! consumer owns a private run loop and blocks on it until the connected
//! receiver records the outcome and finishes the loop. Here every operation
//! delivers its completion while `start` runs, so the recorded outcome is in
//! hand when `start` returns and nothing remains to wait for; an embedding
//! that runs operations off-thread does its waiting around this function.

use crate::operation_state::OperationState;
use crate::receiver::{SetError, SetStopped, SetValue};
use crate::sender::Sender;
use core::marker::PhantomData;
use vstd::prelude::*;

verus! {

/// The outcome a completed operation recorded: exactly one of the three
/// completion channels.
pub enum WaitResult<V, E> {
    Value(V),
    Error(E),
    Stopped,
}

/// The receiver `sync_wait` connects to the sender: each completion channel
/// records its payload in the corresponding `WaitResult` variant.
pub struct SyncWaitReceiver<V, E> {
    pub _phantom: PhantomData<(V, E)>,
}

impl<V, E> SyncWaitReceiver<V, E> {
    /// Build the recording receiver.
    pub fn new() -> (r: Self)
        ensures
            r == (SyncWaitReceiver::<V, E> { _phantom: PhantomData }),
    {
        SyncWaitReceiver { _phantom: PhantomData }
    }
}

impl<V, E> SetValue for SyncWaitReceiver<V, E> {
    type Value = V;

    type Output = WaitResult<V, E>;

    open spec fn value_pre(self, v: V) -> bool {
        true
    }

    open spec fn value_post(self, v: V, out: WaitResult<V, E>) -> bool {
        out == WaitResult::<V, E>::Value(v)
    }

    fn set_value(self, value: V) -> (out: WaitResult<V, E>) {
        WaitResult::Value(value)
    }
}

impl<V, E> SetError for SyncWaitReceiver<V, E> {
    type Error = E;

    type Output = WaitResult<V, E>;

    open spec fn error_pre(self, e: E) -> bool {
        true
    }

    open spec fn error_post(self, e: E, out: WaitResult<V, E>) -> bool {
        out == WaitResult::<V, E>::Error(e)
    }

    fn set_error(self, error: E) -> (out: WaitResult<V, E>) {
        WaitResult::Error(error)
    }
}

impl<V, E> SetStopped for SyncWaitReceiver<V, E> {
    type Output = WaitResult<V, E>;

    open spec fn stopped_pre(self) -> bool {
        true
    }

    open spec fn stopped_post(self, out: WaitResult<V, E>) -> bool {
        out == WaitResult::<V, E>::Stopped
    }

    fn set_stopped(self) -> (out: WaitResult<V, E>) {
        WaitResult::Stopped
    }
}

/// The `WaitResult` that corresponds to a `sync_wait` return value: a value
/// maps to `Ok(Some(v))`, an error to `Err(e)`, and stopped to `Ok(None)`.
pub open spec fn recorded_outcome<V, E>(r: Result<Option<V>, E>) -> WaitResult<V, E> {
    match r {
        Ok(Some(v)) => WaitResult::Value(v),
        Ok(None) => WaitResult::Stopped,
        Err(e) => WaitResult::Error(e),
    }
}

/// Run `sender` to completion on the calling thread and return its outcome:
/// `Ok(Some(v))` on a value completion with `v`, `Err(e)` on an error
/// completion with `e`, and `Ok(None)` on a stopped completion.
///
/// This is the boundary between asynchronous composition and synchronous
/// calling code: the returned outcome is exactly the completion the sender
/// delivered, as `delivery` states it.
pub fn sync_wait<S, V, E>(sender: S) -> (r: Result<Option<V>, E>) where
    S: Sender<SyncWaitReceiver<V, E>, Value = V, Error = E>,
    S::Operation: OperationState<Output = WaitResult<V, E>>,

    requires
        sender.connect_pre((SyncWaitReceiver { _phantom: PhantomData })),
    ensures
        sender.delivery((SyncWaitReceiver { _phantom: PhantomData }), recorded_outcome(r)),
{
    let mut op = sender.connect(SyncWaitReceiver::new());
    let out = op.start();
    match out {
        WaitResult::Value(v) => Ok(Some(v)),
        WaitResult::Error(e) => Err(e),
        WaitResult::Stopped => Ok(None),
    }
}

/// Law: a completed operation records exactly one completion. A recorded
/// outcome is a value, an error, or the stopped signal, and never more than
/// one of these; together with `OperationState::start`, which can run only
/// once and always hands back one recorded outcome, a connected-and-started
/// operation completes its receiver exactly once, through exactly one
/// channel.
pub proof fn lemma_single_completion<V, E>(w: WaitResult<V, E>)
    ensures
        w is Value || w is Error || w is Stopped,
        w is Value ==> !(w is Error) && !(w is Stopped),
        w is Error ==> !(w is Value) && !(w is Stopped),
        w is Stopped ==> !(w is Value) && !(w is Error),
{
}

} // verus!
