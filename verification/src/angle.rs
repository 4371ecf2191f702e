//! Typed angles.

use vstd::prelude::*;

verus! {

/// An angle measured in radians.
#[derive(Clone, Copy, Debug, PartialEq)]
pub struct Radians<S>(pub S);

impl<S: Copy> Radians<S> {
    /// Wraps a number of radians.
    pub fn new(value: S) -> (r: Self)
        ensures
            r.0 == value,
    {
        Radians(value)
    }

    /// The number of radians.
    pub fn value(&self) -> (r: S)
        ensures
            r == self.0,
    {
        self.0
    }
}

} // verus!
