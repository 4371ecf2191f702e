//! Points of two and three coordinates.
//!
//! A point is a position; the difference of two points is a vector, and a
//! vector can be added to a point. In homogeneous coordinates a point carries
//! a last coordinate of one.

use crate::scalar::Scalar;
use crate::vector::{Vector2, Vector3, Vector4};
use vstd::prelude::*;

verus! {

/// A point in two dimensions.
#[derive(Clone, Copy, Debug, PartialEq)]
pub struct Point2<S> {
    pub x: S,
    pub y: S,
}

/// A point in three dimensions.
#[derive(Clone, Copy, Debug, PartialEq)]
pub struct Point3<S> {
    pub x: S,
    pub y: S,
    pub z: S,
}

impl<S: Scalar> Point2<S> {
    /// The vector from the origin to this point.
    pub open spec fn position(self) -> Vector2<S> {
        Vector2 { x: self.x, y: self.y }
    }

    /// The point at the tip of `v`.
    pub open spec fn at(v: Vector2<S>) -> Self {
        Point2 { x: v.x, y: v.y }
    }

    /// The point displaced by `v`.
    pub open spec fn plus(self, v: Vector2<S>) -> Self {
        Point2 { x: self.x.plus(v.x), y: self.y.plus(v.y) }
    }

    /// The vector that leads from `other` to this point.
    pub open spec fn minus(self, other: Self) -> Vector2<S> {
        Vector2 { x: self.x.minus(other.x), y: self.y.minus(other.y) }
    }

    /// Each coordinate multiplied by `s` on the right.
    pub open spec fn scaled(self, s: S) -> Self {
        Point2 { x: self.x.times(s), y: self.y.times(s) }
    }

    /// Each coordinate divided by `s`.
    pub open spec fn unscaled(self, s: S) -> Self {
        Point2 { x: self.x.over(s), y: self.y.over(s) }
    }

    /// The homogeneous coordinates of the point: a last coordinate of one.
    pub open spec fn homogeneous(self) -> Vector3<S> {
        Vector3 { x: self.x, y: self.y, z: S::one_value() }
    }

    /// The point that the homogeneous coordinates `v` stand for: the first
    /// coordinates divided by the last.
    pub open spec fn dehomogenized(v: Vector3<S>) -> Self {
        Point2 { x: v.x.over(v.z), y: v.y.over(v.z) }
    }

    pub fn new(x: S, y: S) -> (r: Self)
        ensures
            r == (Point2 { x, y }),
    {
        Point2 { x, y }
    }

    pub fn origin() -> (r: Self)
        ensures
            r == (Point2 { x: S::zero_value(), y: S::zero_value() }),
    {
        Point2 { x: S::zero(), y: S::zero() }
    }

    pub fn to_vector(&self) -> (r: Vector2<S>)
        ensures
            r == self.position(),
    {
        Vector2 { x: self.x, y: self.y }
    }

    pub fn from_vector(v: &Vector2<S>) -> (r: Self)
        ensures
            r == Self::at(*v),
    {
        Point2 { x: v.x, y: v.y }
    }

    /// Displaces the point by `v`.
    pub fn add(&self, v: &Vector2<S>) -> (r: Self)
        ensures
            r == self.plus(*v),
    {
        Point2 { x: self.x.add(v.x), y: self.y.add(v.y) }
    }

    /// The vector from `other` to this point.
    pub fn sub(&self, other: &Self) -> (r: Vector2<S>)
        ensures
            r == self.minus(*other),
    {
        Vector2 { x: self.x.sub(other.x), y: self.y.sub(other.y) }
    }

    /// Multiplies every coordinate by `s`.
    pub fn mul(&self, s: S) -> (r: Self)
        ensures
            r == self.scaled(s),
    {
        Point2 { x: self.x.mul(s), y: self.y.mul(s) }
    }

    /// Divides every coordinate by `s`.
    pub fn div(&self, s: S) -> (r: Self)
        ensures
            r == self.unscaled(s),
    {
        Point2 { x: self.x.div(s), y: self.y.div(s) }
    }

    pub fn to_homogeneous(&self) -> (r: Vector3<S>)
        ensures
            r == self.homogeneous(),
    {
        Vector3 { x: self.x, y: self.y, z: S::one() }
    }

    pub fn from_homogeneous(v: &Vector3<S>) -> (r: Self)
        ensures
            r == Self::dehomogenized(*v),
    {
        Point2 { x: v.x.div(v.z), y: v.y.div(v.z) }
    }
}

impl<S: Scalar> Point3<S> {
    /// The vector from the origin to this point.
    pub open spec fn position(self) -> Vector3<S> {
        Vector3 { x: self.x, y: self.y, z: self.z }
    }

    /// The point at the tip of `v`.
    pub open spec fn at(v: Vector3<S>) -> Self {
        Point3 { x: v.x, y: v.y, z: v.z }
    }

    /// The point displaced by `v`.
    pub open spec fn plus(self, v: Vector3<S>) -> Self {
        Point3 { x: self.x.plus(v.x), y: self.y.plus(v.y), z: self.z.plus(v.z) }
    }

    /// The vector that leads from `other` to this point.
    pub open spec fn minus(self, other: Self) -> Vector3<S> {
        Vector3 { x: self.x.minus(other.x), y: self.y.minus(other.y), z: self.z.minus(other.z) }
    }

    /// Each coordinate multiplied by `s` on the right.
    pub open spec fn scaled(self, s: S) -> Self {
        Point3 { x: self.x.times(s), y: self.y.times(s), z: self.z.times(s) }
    }

    /// Each coordinate divided by `s`.
    pub open spec fn unscaled(self, s: S) -> Self {
        Point3 { x: self.x.over(s), y: self.y.over(s), z: self.z.over(s) }
    }

    /// The homogeneous coordinates of the point: a last coordinate of one.
    pub open spec fn homogeneous(self) -> Vector4<S> {
        Vector4 { x: self.x, y: self.y, z: self.z, w: S::one_value() }
    }

    /// The point that the homogeneous coordinates `v` stand for: the first
    /// coordinates divided by the last.
    pub open spec fn dehomogenized(v: Vector4<S>) -> Self {
        Point3 { x: v.x.over(v.w), y: v.y.over(v.w), z: v.z.over(v.w) }
    }

    pub fn new(x: S, y: S, z: S) -> (r: Self)
        ensures
            r == (Point3 { x, y, z }),
    {
        Point3 { x, y, z }
    }

    pub fn origin() -> (r: Self)
        ensures
            r == (Point3 { x: S::zero_value(), y: S::zero_value(), z: S::zero_value() }),
    {
        Point3 { x: S::zero(), y: S::zero(), z: S::zero() }
    }

    pub fn to_vector(&self) -> (r: Vector3<S>)
        ensures
            r == self.position(),
    {
        Vector3 { x: self.x, y: self.y, z: self.z }
    }

    pub fn from_vector(v: &Vector3<S>) -> (r: Self)
        ensures
            r == Self::at(*v),
    {
        Point3 { x: v.x, y: v.y, z: v.z }
    }

    /// Displaces the point by `v`.
    pub fn add(&self, v: &Vector3<S>) -> (r: Self)
        ensures
            r == self.plus(*v),
    {
        Point3 { x: self.x.add(v.x), y: self.y.add(v.y), z: self.z.add(v.z) }
    }

    /// The vector from `other` to this point.
    pub fn sub(&self, other: &Self) -> (r: Vector3<S>)
        ensures
            r == self.minus(*other),
    {
        Vector3 { x: self.x.sub(other.x), y: self.y.sub(other.y), z: self.z.sub(other.z) }
    }

    /// Multiplies every coordinate by `s`.
    pub fn mul(&self, s: S) -> (r: Self)
        ensures
            r == self.scaled(s),
    {
        Point3 { x: self.x.mul(s), y: self.y.mul(s), z: self.z.mul(s) }
    }

    /// Divides every coordinate by `s`.
    pub fn div(&self, s: S) -> (r: Self)
        ensures
            r == self.unscaled(s),
    {
        Point3 { x: self.x.div(s), y: self.y.div(s), z: self.z.div(s) }
    }

    pub fn to_homogeneous(&self) -> (r: Vector4<S>)
        ensures
            r == self.homogeneous(),
    {
        Vector4 { x: self.x, y: self.y, z: self.z, w: S::one() }
    }

    pub fn from_homogeneous(v: &Vector4<S>) -> (r: Self)
        ensures
            r == Self::dehomogenized(*v),
    {
        Point3 { x: v.x.div(v.w), y: v.y.div(v.w), z: v.z.div(v.w) }
    }
}

} // verus!
