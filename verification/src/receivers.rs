//! Probe receivers that demand an expected completion.
//!
//! Where their classical counterparts assert at run time that the expected
//! payload arrived, these receivers state the expectation as the channel's
//! precondition: a sender chain can only be connected to one of them when
//! the delivered payload is provably the expected one.

use crate::receiver::{SetError, SetValue};
use vstd::prelude::*;

verus! {

/// A receiver that accepts exactly one value: the expected one.
pub struct ExpectValueReceiver<T> {
    pub expected: T,
}

impl<T> ExpectValueReceiver<T> {
    /// Build a receiver expecting `expected` on its value channel.
    pub fn new(expected: T) -> (r: Self)
        ensures
            r == (ExpectValueReceiver { expected }),
    {
        ExpectValueReceiver { expected }
    }
}

impl<T> SetValue for ExpectValueReceiver<T> {
    type Value = T;

    type Output = ();

    open spec fn value_pre(self, v: T) -> bool {
        v == self.expected
    }

    open spec fn value_post(self, v: T, out: ()) -> bool {
        true
    }

    fn set_value(self, value: T) -> (out: ()) {
    }
}

/// A receiver that accepts exactly one error: the expected one.
pub struct ExpectErrorReceiver<E> {
    pub expected: E,
}

impl<E> ExpectErrorReceiver<E> {
    /// Build a receiver expecting `expected` on its error channel.
    pub fn new(expected: E) -> (r: Self)
        ensures
            r == (ExpectErrorReceiver { expected }),
    {
        ExpectErrorReceiver { expected }
    }
}

impl<E> SetError for ExpectErrorReceiver<E> {
    type Error = E;

    type Output = ();

    open spec fn error_pre(self, e: E) -> bool {
        e == self.expected
    }

    open spec fn error_post(self, e: E, out: ()) -> bool {
        true
    }

    fn set_error(self, error: E) -> (out: ()) {
    }
}

} // verus!
