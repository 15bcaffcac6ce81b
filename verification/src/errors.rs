//! A trivial error value for exercising the error channel.

use vstd::prelude::*;

verus! {

/// A unit error type: two values of it are always equal.
#[derive(Clone, Copy, PartialEq, Eq, Structural, Debug)]
pub struct TestError;

} // verus!
