//! The future-bridge consumer: adapt a sender into a poll-based awaitable.
//!
//! The bridge holds the connected operation together with a write-once,
//! take-once result latch and a wake-handle slot. The poll protocol:
//! if the latch holds a result, take it and report ready; otherwise, on the
//! first poll only, register the wake handle and start the operation. A
//! completion stores its result in the latch and invokes the registered
//! wake handle exactly once; polling again after the result was taken
//! neither starts the operation again nor invokes the handle again.
//!
//! The wake handle is modelled by a counter of invocations, so the
//! single-notification guarantee is part of `poll`'s contract; an embedding
//! into a poll-based task system supplies the real callback around it.

use crate::operation_state::OperationState;
use crate::receiver::{SetError, SetStopped, SetValue};
use crate::sender::Sender;
use core::marker::PhantomData;
use vstd::prelude::*;

verus! {

/// The completion a bridge receiver records: exactly one of the three
/// channels.
pub enum AwaitResult<V, E> {
    Value(V),
    Error(E),
    Stopped,
}

/// The receiver the bridge connects to the sender: each completion channel
/// records its payload in the corresponding `AwaitResult` variant.
pub struct Receiver<V, E> {
    pub _phantom: PhantomData<(V, E)>,
}

impl<V, E> SetValue for Receiver<V, E> {
    type Value = V;

    type Output = AwaitResult<V, E>;

    open spec fn value_pre(self, v: V) -> bool {
        true
    }

    open spec fn value_post(self, v: V, out: AwaitResult<V, E>) -> bool {
        out == AwaitResult::<V, E>::Value(v)
    }

    fn set_value(self, value: V) -> (out: AwaitResult<V, E>) {
        AwaitResult::Value(value)
    }
}

impl<V, E> SetError for Receiver<V, E> {
    type Error = E;

    type Output = AwaitResult<V, E>;

    open spec fn error_pre(self, e: E) -> bool {
        true
    }

    open spec fn error_post(self, e: E, out: AwaitResult<V, E>) -> bool {
        out == AwaitResult::<V, E>::Error(e)
    }

    fn set_error(self, error: E) -> (out: AwaitResult<V, E>) {
        AwaitResult::Error(error)
    }
}

impl<V, E> SetStopped for Receiver<V, E> {
    type Output = AwaitResult<V, E>;

    open spec fn stopped_pre(self) -> bool {
        true
    }

    open spec fn stopped_post(self, out: AwaitResult<V, E>) -> bool {
        out == AwaitResult::<V, E>::Stopped
    }

    fn set_stopped(self) -> (out: AwaitResult<V, E>) {
        AwaitResult::Stopped
    }
}

/// What one call to `poll` reports: the mapped outcome, or not ready yet.
pub enum PollOutcome<V, E> {
    Ready(Result<Option<V>, E>),
    Pending,
}

/// The outcome `poll` reports for a recorded completion: a value maps to
/// `Ok(Some(v))`, an error to `Err(e)`, and stopped to `Ok(None)`.
pub open spec fn awaited_outcome<V, E>(a: AwaitResult<V, E>) -> Result<Option<V>, E> {
    match a {
        AwaitResult::Value(v) => Ok(Some(v)),
        AwaitResult::Error(e) => Err(e),
        AwaitResult::Stopped => Ok(None),
    }
}

/// A sender adapted into a poll-based awaitable.
#[verifier::reject_recursive_types(V)]
#[verifier::reject_recursive_types(E)]
pub struct SenderAwaitable<S, V, E> where
    S: Sender<Receiver<V, E>, Value = V, Error = E>,
    S::Operation: OperationState<Output = AwaitResult<V, E>>,
 {
    operation: S::Operation,
    result: Option<AwaitResult<V, E>>,
    started: bool,
    waker_registered: bool,
    wakes: u64,
    sender: Ghost<S>,
}

impl<S, V, E> SenderAwaitable<S, V, E> where
    S: Sender<Receiver<V, E>, Value = V, Error = E>,
    S::Operation: OperationState<Output = AwaitResult<V, E>>,
 {
    /// The sender this awaitable was built from.
    pub closed spec fn sender_of(&self) -> S {
        self.sender@
    }

    /// Whether the operation has been started.
    pub closed spec fn is_started(&self) -> bool {
        self.started
    }

    /// The recorded completion that has not been taken yet, if any.
    pub closed spec fn latched(&self) -> Option<AwaitResult<V, E>> {
        self.result
    }

    /// How many times the registered wake handle has been invoked.
    pub closed spec fn wake_count(&self) -> u64 {
        self.wakes
    }

    /// The bridge's invariant: the wake handle is invoked at most once; an
    /// unstarted bridge holds a ready operation, an empty latch, and an
    /// uninvoked handle; whatever the operation delivers, and whatever the
    /// latch holds, is a delivery of the adapted sender.
    pub closed spec fn inv(&self) -> bool {
        &&& self.wakes <= 1
        &&& (!self.started ==> {
            &&& self.operation.ready()
            &&& self.result is None
            &&& self.wakes == 0
            &&& forall|out: AwaitResult<V, E>| #[trigger]
                self.operation.post(out) ==> self.sender@.delivery(
                    (Receiver { _phantom: PhantomData }),
                    out,
                )
        })
        &&& (self.result is Some ==> self.started && self.sender@.delivery(
            (Receiver { _phantom: PhantomData }),
            self.result->0,
        ))
    }

    /// Connect `sender` behind a fresh bridge. Nothing is started yet.
    pub fn new(sender: S) -> (a: Self)
        requires
            sender.connect_pre((Receiver { _phantom: PhantomData })),
        ensures
            a.inv(),
            a.sender_of() == sender,
            !a.is_started(),
            a.latched() is None,
            a.wake_count() == 0,
    {
        let ghost snd = sender;
        SenderAwaitable {
            operation: sender.connect(Receiver { _phantom: PhantomData }),
            result: None,
            started: false,
            waker_registered: false,
            wakes: 0,
            sender: Ghost(snd),
        }
    }

    /// One round of the poll protocol.
    ///
    /// A latched completion is taken and reported ready, invoking nothing.
    /// The first poll registers the wake handle, starts the operation
    /// exactly once, latches the completion and invokes the handle exactly
    /// once for it. Any later poll with an empty latch neither starts the
    /// operation again nor invokes the handle again.
    pub fn poll(&mut self) -> (r: PollOutcome<V, E>)
        requires
            old(self).inv(),
        ensures
            final(self).inv(),
            final(self).sender_of() == old(self).sender_of(),
            old(self).latched() is Some ==> {
                &&& r == PollOutcome::<V, E>::Ready(awaited_outcome(old(self).latched()->0))
                &&& final(self).latched() is None
                &&& final(self).wake_count() == old(self).wake_count()
                &&& final(self).is_started() == old(self).is_started()
            },
            old(self).latched() is None && !old(self).is_started() ==> {
                &&& r == PollOutcome::<V, E>::Pending
                &&& final(self).is_started()
                &&& final(self).latched() is Some
                &&& old(self).sender_of().delivery(
                    (Receiver { _phantom: PhantomData }),
                    final(self).latched()->0,
                )
                &&& final(self).wake_count() == old(self).wake_count() + 1
            },
            old(self).latched() is None && old(self).is_started() ==> {
                &&& r == PollOutcome::<V, E>::Pending
                &&& *final(self) == *old(self)
            },
    {
        if self.result.is_some() {
            let taken = self.result.take().unwrap();
            match taken {
                AwaitResult::Value(v) => PollOutcome::Ready(Ok(Some(v))),
                AwaitResult::Error(e) => PollOutcome::Ready(Err(e)),
                AwaitResult::Stopped => PollOutcome::Ready(Ok(None)),
            }
        } else if !self.started {
            self.waker_registered = true;
            self.started = true;
            let out = self.operation.start();
            self.result = Some(out);
            if self.waker_registered {
                self.waker_registered = false;
                self.wakes = self.wakes + 1;
            }
            PollOutcome::Pending
        } else {
            PollOutcome::Pending
        }
    }
}

} // verus!
