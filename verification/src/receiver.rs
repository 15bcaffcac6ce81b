//! The receiver side of the completion protocol.
//!
//! A receiver is a one-shot continuation. It implements the capability
//! traits for the completion channels it accepts: a value, an error, or a
//! stopped signal. Each completion method consumes the receiver, so each can
//! be invoked at most once, and a receiver that has been completed through
//! one channel can never be completed through another: the type system
//! enforces the single-completion protocol.
//!
//! Completing a receiver hands back an output value. The capability traits
//! pin that output down with a pair of spec functions per channel: a
//! precondition saying when the channel may be used, and a postcondition
//! relating the output to the receiver and the delivered payload.

use vstd::prelude::*;

verus! {

/// The value channel: the receiver accepts a successful completion carrying
/// a value of its `Value` type.
pub trait SetValue: Sized {
    /// The type of value this receiver accepts.
    type Value;

    /// What completing this receiver hands back to the code that delivered
    /// the completion.
    type Output;

    /// When the receiver may be completed with `v`.
    spec fn value_pre(self, v: Self::Value) -> bool;

    /// What holds of the output after the receiver is completed with `v`.
    spec fn value_post(self, v: Self::Value, out: Self::Output) -> bool;

    /// Deliver the value `value` to this receiver, consuming it.
    fn set_value(self, value: Self::Value) -> (out: Self::Output)
        requires
            self.value_pre(value),
        ensures
            self.value_post(value, out),
    ;
}

/// The error channel: the receiver accepts a failure completion carrying an
/// error of its `Error` type.
pub trait SetError: Sized {
    /// The type of error this receiver accepts.
    type Error;

    /// What completing this receiver hands back to the code that delivered
    /// the completion.
    type Output;

    /// When the receiver may be completed with the error `e`.
    spec fn error_pre(self, e: Self::Error) -> bool;

    /// What holds of the output after the receiver is completed with `e`.
    spec fn error_post(self, e: Self::Error, out: Self::Output) -> bool;

    /// Deliver the error `error` to this receiver, consuming it.
    fn set_error(self, error: Self::Error) -> (out: Self::Output)
        requires
            self.error_pre(error),
        ensures
            self.error_post(error, out),
    ;
}

/// The stopped channel: the receiver accepts a terminal "stopped" signal,
/// distinct from both success and error, representing cooperative
/// cancellation by an upstream sender.
pub trait SetStopped: Sized {
    /// What completing this receiver hands back to the code that delivered
    /// the completion.
    type Output;

    /// When the receiver may be completed with the stopped signal.
    spec fn stopped_pre(self) -> bool;

    /// What holds of the output after the receiver is stopped.
    spec fn stopped_post(self, out: Self::Output) -> bool;

    /// Deliver the stopped signal to this receiver, consuming it.
    fn set_stopped(self) -> (out: Self::Output)
        requires
            self.stopped_pre(),
        ensures
            self.stopped_post(out),
    ;
}

} // verus!
