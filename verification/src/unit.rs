//! Vectors of length one.

use crate::scalar::ScalarFloat;
use crate::vector::Vector3;
use vstd::prelude::*;

verus! {

/// A value that was normalized when it was wrapped, such as the axis of a
/// rotation.
#[derive(Clone, Copy, Debug, PartialEq)]
pub struct Unit<T> {
    pub value: T,
}

impl<T: Copy> Unit<T> {
    /// Wraps a value that the caller knows to be normalized.
    pub fn from_value_unchecked(value: T) -> (r: Self)
        ensures
            r.value == value,
    {
        Unit { value }
    }

    /// The wrapped value.
    pub fn into_inner(self) -> (r: T)
        ensures
            r == self.value,
    {
        self.value
    }
}

impl<S: ScalarFloat> Unit<Vector3<S>> {
    /// Normalizes `value` and wraps it.
    pub fn from_value(value: Vector3<S>) -> (r: Self)
        ensures
            r.value == value.normalized(),
    {
        Unit { value: value.normalize() }
    }
}

} // verus!
