//! Vectors of two, three, and four components.

use crate::scalar::{Scalar, ScalarFloat, ScalarSigned};
use vstd::prelude::*;

verus! {

/// A vector in two dimensions.
#[derive(Clone, Copy, Debug, PartialEq)]
pub struct Vector2<S> {
    pub x: S,
    pub y: S,
}

/// A vector in three dimensions.
#[derive(Clone, Copy, Debug, PartialEq)]
pub struct Vector3<S> {
    pub x: S,
    pub y: S,
    pub z: S,
}

/// A vector in four dimensions, used for homogeneous coordinates.
#[derive(Clone, Copy, Debug, PartialEq)]
pub struct Vector4<S> {
    pub x: S,
    pub y: S,
    pub z: S,
    pub w: S,
}

impl<S: Scalar> Vector2<S> {
    /// The componentwise sum.
    pub open spec fn plus(self, other: Self) -> Self {
        Vector2 { x: self.x.plus(other.x), y: self.y.plus(other.y) }
    }

    /// The componentwise difference.
    pub open spec fn minus(self, other: Self) -> Self {
        Vector2 { x: self.x.minus(other.x), y: self.y.minus(other.y) }
    }

    /// Each component multiplied by `s` on the right.
    pub open spec fn scaled(self, s: S) -> Self {
        Vector2 { x: self.x.times(s), y: self.y.times(s) }
    }

    /// Each component multiplied by `s` on the left.
    pub open spec fn scaled_by(self, s: S) -> Self {
        Vector2 { x: s.times(self.x), y: s.times(self.y) }
    }

    /// Each component divided by `s`.
    pub open spec fn unscaled(self, s: S) -> Self {
        Vector2 { x: self.x.over(s), y: self.y.over(s) }
    }

    /// The dot product.
    pub open spec fn dot_product(self, other: Self) -> S {
        self.x.times(other.x).plus(self.y.times(other.y))
    }

    /// The zero vector.
    pub open spec fn zero_value() -> Self {
        Vector2 { x: S::zero_value(), y: S::zero_value() }
    }

    /// The vector with a third coordinate `z` appended.
    pub open spec fn extended(self, z: S) -> Vector3<S> {
        Vector3 { x: self.x, y: self.y, z }
    }

    pub fn new(x: S, y: S) -> (r: Self)
        ensures
            r == (Vector2 { x, y }),
    {
        Vector2 { x, y }
    }

    pub fn zero() -> (r: Self)
        ensures
            r == Self::zero_value(),
    {
        Vector2 { x: S::zero(), y: S::zero() }
    }

    pub fn unit_x() -> (r: Self)
        ensures
            r == (Vector2 { x: S::one_value(), y: S::zero_value() }),
    {
        Vector2 { x: S::one(), y: S::zero() }
    }

    pub fn unit_y() -> (r: Self)
        ensures
            r == (Vector2 { x: S::zero_value(), y: S::one_value() }),
    {
        Vector2 { x: S::zero(), y: S::one() }
    }

    pub fn add(&self, other: &Self) -> (r: Self)
        ensures
            r == self.plus(*other),
    {
        Vector2 { x: self.x.add(other.x), y: self.y.add(other.y) }
    }

    pub fn sub(&self, other: &Self) -> (r: Self)
        ensures
            r == self.minus(*other),
    {
        Vector2 { x: self.x.sub(other.x), y: self.y.sub(other.y) }
    }

    /// Multiplies every component by `s`.
    pub fn mul(&self, s: S) -> (r: Self)
        ensures
            r == self.scaled(s),
    {
        Vector2 { x: self.x.mul(s), y: self.y.mul(s) }
    }

    /// Divides every component by `s`.
    pub fn div(&self, s: S) -> (r: Self)
        ensures
            r == self.unscaled(s),
    {
        Vector2 { x: self.x.div(s), y: self.y.div(s) }
    }

    pub fn dot(&self, other: &Self) -> (r: S)
        ensures
            r == self.dot_product(*other),
    {
        self.x.mul(other.x).add(self.y.mul(other.y))
    }

    pub fn magnitude_squared(&self) -> (r: S)
        ensures
            r == self.dot_product(*self),
    {
        self.dot(self)
    }

    /// Appends `z` as the third coordinate.
    pub fn extend(&self, z: S) -> (r: Vector3<S>)
        ensures
            r == self.extended(z),
    {
        Vector3 { x: self.x, y: self.y, z }
    }
}

impl<S: ScalarSigned> Vector2<S> {
    /// The componentwise additive inverse.
    pub open spec fn negated(self) -> Self {
        Vector2 { x: self.x.negated(), y: self.y.negated() }
    }

    pub fn neg(&self) -> (r: Self)
        ensures
            r == self.negated(),
    {
        Vector2 { x: self.x.neg(), y: self.y.neg() }
    }
}

impl<S: ScalarFloat> Vector2<S> {
    /// The Euclidean length.
    pub open spec fn norm(self) -> S {
        self.dot_product(self).root()
    }

    /// The vector divided by its length.
    pub open spec fn normalized(self) -> Self {
        self.unscaled(self.norm())
    }

    pub fn magnitude(&self) -> (r: S)
        ensures
            r == self.norm(),
    {
        self.magnitude_squared().sqrt()
    }

    /// Divides the vector by its length. The zero vector has no direction:
    /// what comes back for it is whatever the scalar's division by zero gives.
    pub fn normalize(&self) -> (r: Self)
        ensures
            r == self.normalized(),
    {
        self.div(self.magnitude())
    }
}

impl<S: Scalar> Vector3<S> {
    /// The componentwise sum.
    pub open spec fn plus(self, other: Self) -> Self {
        Vector3 { x: self.x.plus(other.x), y: self.y.plus(other.y), z: self.z.plus(other.z) }
    }

    /// The componentwise difference.
    pub open spec fn minus(self, other: Self) -> Self {
        Vector3 { x: self.x.minus(other.x), y: self.y.minus(other.y), z: self.z.minus(other.z) }
    }

    /// Each component multiplied by `s` on the right.
    pub open spec fn scaled(self, s: S) -> Self {
        Vector3 { x: self.x.times(s), y: self.y.times(s), z: self.z.times(s) }
    }

    /// Each component multiplied by `s` on the left.
    pub open spec fn scaled_by(self, s: S) -> Self {
        Vector3 { x: s.times(self.x), y: s.times(self.y), z: s.times(self.z) }
    }

    /// Each component divided by `s`.
    pub open spec fn unscaled(self, s: S) -> Self {
        Vector3 { x: self.x.over(s), y: self.y.over(s), z: self.z.over(s) }
    }

    /// The dot product.
    pub open spec fn dot_product(self, other: Self) -> S {
        self.x.times(other.x).plus(self.y.times(other.y)).plus(self.z.times(other.z))
    }

    /// The cross product.
    pub open spec fn cross_product(self, other: Self) -> Self {
        Vector3 {
            x: self.y.times(other.z).minus(self.z.times(other.y)),
            y: self.z.times(other.x).minus(self.x.times(other.z)),
            z: self.x.times(other.y).minus(self.y.times(other.x)),
        }
    }

    /// The zero vector.
    pub open spec fn zero_value() -> Self {
        Vector3 { x: S::zero_value(), y: S::zero_value(), z: S::zero_value() }
    }

    /// The vector with a fourth coordinate `w` appended.
    pub open spec fn extended(self, w: S) -> Vector4<S> {
        Vector4 { x: self.x, y: self.y, z: self.z, w }
    }

    /// The vector without its last coordinate.
    pub open spec fn contracted(self) -> Vector2<S> {
        Vector2 { x: self.x, y: self.y }
    }

    pub fn new(x: S, y: S, z: S) -> (r: Self)
        ensures
            r == (Vector3 { x, y, z }),
    {
        Vector3 { x, y, z }
    }

    pub fn zero() -> (r: Self)
        ensures
            r == Self::zero_value(),
    {
        Vector3 { x: S::zero(), y: S::zero(), z: S::zero() }
    }

    pub fn unit_x() -> (r: Self)
        ensures
            r == (Vector3 { x: S::one_value(), y: S::zero_value(), z: S::zero_value() }),
    {
        Vector3 { x: S::one(), y: S::zero(), z: S::zero() }
    }

    pub fn unit_y() -> (r: Self)
        ensures
            r == (Vector3 { x: S::zero_value(), y: S::one_value(), z: S::zero_value() }),
    {
        Vector3 { x: S::zero(), y: S::one(), z: S::zero() }
    }

    pub fn unit_z() -> (r: Self)
        ensures
            r == (Vector3 { x: S::zero_value(), y: S::zero_value(), z: S::one_value() }),
    {
        Vector3 { x: S::zero(), y: S::zero(), z: S::one() }
    }

    pub fn add(&self, other: &Self) -> (r: Self)
        ensures
            r == self.plus(*other),
    {
        Vector3 { x: self.x.add(other.x), y: self.y.add(other.y), z: self.z.add(other.z) }
    }

    pub fn sub(&self, other: &Self) -> (r: Self)
        ensures
            r == self.minus(*other),
    {
        Vector3 { x: self.x.sub(other.x), y: self.y.sub(other.y), z: self.z.sub(other.z) }
    }

    /// Multiplies every component by `s`.
    pub fn mul(&self, s: S) -> (r: Self)
        ensures
            r == self.scaled(s),
    {
        Vector3 { x: self.x.mul(s), y: self.y.mul(s), z: self.z.mul(s) }
    }

    /// Divides every component by `s`.
    pub fn div(&self, s: S) -> (r: Self)
        ensures
            r == self.unscaled(s),
    {
        Vector3 { x: self.x.div(s), y: self.y.div(s), z: self.z.div(s) }
    }

    pub fn dot(&self, other: &Self) -> (r: S)
        ensures
            r == self.dot_product(*other),
    {
        self.x.mul(other.x).add(self.y.mul(other.y)).add(self.z.mul(other.z))
    }

    pub fn cross(&self, other: &Self) -> (r: Self)
        ensures
            r == self.cross_product(*other),
    {
        Vector3 {
            x: self.y.mul(other.z).sub(self.z.mul(other.y)),
            y: self.z.mul(other.x).sub(self.x.mul(other.z)),
            z: self.x.mul(other.y).sub(self.y.mul(other.x)),
        }
    }

    pub fn magnitude_squared(&self) -> (r: S)
        ensures
            r == self.dot_product(*self),
    {
        self.dot(self)
    }

    /// Appends `w` as the fourth coordinate.
    pub fn extend(&self, w: S) -> (r: Vector4<S>)
        ensures
            r == self.extended(w),
    {
        Vector4 { x: self.x, y: self.y, z: self.z, w }
    }

    /// Drops the last coordinate.
    pub fn contract(&self) -> (r: Vector2<S>)
        ensures
            r == self.contracted(),
    {
        Vector2 { x: self.x, y: self.y }
    }
}

impl<S: ScalarSigned> Vector3<S> {
    /// The componentwise additive inverse.
    pub open spec fn negated(self) -> Self {
        Vector3 { x: self.x.negated(), y: self.y.negated(), z: self.z.negated() }
    }

    pub fn neg(&self) -> (r: Self)
        ensures
            r == self.negated(),
    {
        Vector3 { x: self.x.neg(), y: self.y.neg(), z: self.z.neg() }
    }
}

impl<S: ScalarFloat> Vector3<S> {
    /// The Euclidean length.
    pub open spec fn norm(self) -> S {
        self.dot_product(self).root()
    }

    /// The vector divided by its length.
    pub open spec fn normalized(self) -> Self {
        self.unscaled(self.norm())
    }

    pub fn magnitude(&self) -> (r: S)
        ensures
            r == self.norm(),
    {
        self.magnitude_squared().sqrt()
    }

    /// Divides the vector by its length. The zero vector has no direction:
    /// what comes back for it is whatever the scalar's division by zero gives.
    pub fn normalize(&self) -> (r: Self)
        ensures
            r == self.normalized(),
    {
        self.div(self.magnitude())
    }
}

impl<S: Scalar> Vector4<S> {
    /// The dot product.
    pub open spec fn dot_product(self, other: Self) -> S {
        self.x.times(other.x).plus(self.y.times(other.y)).plus(self.z.times(other.z)).plus(
            self.w.times(other.w),
        )
    }

    /// The vector without its last coordinate.
    pub open spec fn contracted(self) -> Vector3<S> {
        Vector3 { x: self.x, y: self.y, z: self.z }
    }

    pub fn new(x: S, y: S, z: S, w: S) -> (r: Self)
        ensures
            r == (Vector4 { x, y, z, w }),
    {
        Vector4 { x, y, z, w }
    }

    pub fn dot(&self, other: &Self) -> (r: S)
        ensures
            r == self.dot_product(*other),
    {
        self.x.mul(other.x).add(self.y.mul(other.y)).add(self.z.mul(other.z)).add(
            self.w.mul(other.w),
        )
    }

    /// Drops the last coordinate.
    pub fn contract(&self) -> (r: Vector3<S>)
        ensures
            r == self.contracted(),
    {
        Vector3 { x: self.x, y: self.y, z: self.z }
    }
}

} // verus!
