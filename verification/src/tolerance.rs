//! Equality up to a tolerance, component by component.
//!
//! Results of floating-point computations are compared with a tolerance.
//! Each comparison of a compound value is the conjunction of the comparisons
//! of its parts, down to the scalar's own.

use crate::isometry::{Isometry2, Isometry3};
use crate::matrix::{Matrix2x2, Matrix3x3, Matrix4x4};
use crate::point::{Point2, Point3};
use crate::rotation::{Rotation2, Rotation3};
use crate::scalar::ScalarFloat;
use crate::similarity::{Similarity2, Similarity3};
use crate::translation::{Translation2, Translation3};
use crate::vector::{Vector2, Vector3};
use vstd::prelude::*;

verus! {

impl<S: ScalarFloat> Vector2<S> {
    /// Whether every scalar of `self` is within `epsilon` of its counterpart in
    /// `other`.
    pub open spec fn near(self, other: Self, epsilon: S) -> bool {
        &&& self.x.near(other.x, epsilon)
        &&& self.y.near(other.y, epsilon)
    }

    pub fn abs_diff_eq(&self, other: &Self, epsilon: S) -> (r: bool)
        ensures
            r == self.near(*other, epsilon),
    {
        self.x.abs_diff_eq(other.x, epsilon)
            && self.y.abs_diff_eq(other.y, epsilon)
    }

    /// Whether every scalar of `self` is within `epsilon`, or within the
    /// relative tolerance `max_relative`, of its counterpart in `other`.
    pub open spec fn near_relative(self, other: Self, epsilon: S, max_relative: S) -> bool {
        &&& self.x.near_relative(other.x, epsilon, max_relative)
        &&& self.y.near_relative(other.y, epsilon, max_relative)
    }

    pub fn relative_eq(&self, other: &Self, epsilon: S, max_relative: S) -> (r: bool)
        ensures
            r == self.near_relative(*other, epsilon, max_relative),
    {
        self.x.relative_eq(other.x, epsilon, max_relative)
            && self.y.relative_eq(other.y, epsilon, max_relative)
    }

    /// Whether every scalar of `self` is within `epsilon`, or within `max_ulps`
    /// representable numbers, of its counterpart in `other`.
    pub open spec fn near_ulps(self, other: Self, epsilon: S, max_ulps: u32) -> bool {
        &&& self.x.near_ulps(other.x, epsilon, max_ulps)
        &&& self.y.near_ulps(other.y, epsilon, max_ulps)
    }

    pub fn ulps_eq(&self, other: &Self, epsilon: S, max_ulps: u32) -> (r: bool)
        ensures
            r == self.near_ulps(*other, epsilon, max_ulps),
    {
        self.x.ulps_eq(other.x, epsilon, max_ulps)
            && self.y.ulps_eq(other.y, epsilon, max_ulps)
    }
}

impl<S: ScalarFloat> Vector3<S> {
    /// Whether every scalar of `self` is within `epsilon` of its counterpart in
    /// `other`.
    pub open spec fn near(self, other: Self, epsilon: S) -> bool {
        &&& self.x.near(other.x, epsilon)
        &&& self.y.near(other.y, epsilon)
        &&& self.z.near(other.z, epsilon)
    }

    pub fn abs_diff_eq(&self, other: &Self, epsilon: S) -> (r: bool)
        ensures
            r == self.near(*other, epsilon),
    {
        self.x.abs_diff_eq(other.x, epsilon)
            && self.y.abs_diff_eq(other.y, epsilon)
            && self.z.abs_diff_eq(other.z, epsilon)
    }

    /// Whether every scalar of `self` is within `epsilon`, or within the
    /// relative tolerance `max_relative`, of its counterpart in `other`.
    pub open spec fn near_relative(self, other: Self, epsilon: S, max_relative: S) -> bool {
        &&& self.x.near_relative(other.x, epsilon, max_relative)
        &&& self.y.near_relative(other.y, epsilon, max_relative)
        &&& self.z.near_relative(other.z, epsilon, max_relative)
    }

    pub fn relative_eq(&self, other: &Self, epsilon: S, max_relative: S) -> (r: bool)
        ensures
            r == self.near_relative(*other, epsilon, max_relative),
    {
        self.x.relative_eq(other.x, epsilon, max_relative)
            && self.y.relative_eq(other.y, epsilon, max_relative)
            && self.z.relative_eq(other.z, epsilon, max_relative)
    }

    /// Whether every scalar of `self` is within `epsilon`, or within `max_ulps`
    /// representable numbers, of its counterpart in `other`.
    pub open spec fn near_ulps(self, other: Self, epsilon: S, max_ulps: u32) -> bool {
        &&& self.x.near_ulps(other.x, epsilon, max_ulps)
        &&& self.y.near_ulps(other.y, epsilon, max_ulps)
        &&& self.z.near_ulps(other.z, epsilon, max_ulps)
    }

    pub fn ulps_eq(&self, other: &Self, epsilon: S, max_ulps: u32) -> (r: bool)
        ensures
            r == self.near_ulps(*other, epsilon, max_ulps),
    {
        self.x.ulps_eq(other.x, epsilon, max_ulps)
            && self.y.ulps_eq(other.y, epsilon, max_ulps)
            && self.z.ulps_eq(other.z, epsilon, max_ulps)
    }
}

impl<S: ScalarFloat> Point2<S> {
    /// Whether every scalar of `self` is within `epsilon` of its counterpart in
    /// `other`.
    pub open spec fn near(self, other: Self, epsilon: S) -> bool {
        &&& self.x.near(other.x, epsilon)
        &&& self.y.near(other.y, epsilon)
    }

    pub fn abs_diff_eq(&self, other: &Self, epsilon: S) -> (r: bool)
        ensures
            r == self.near(*other, epsilon),
    {
        self.x.abs_diff_eq(other.x, epsilon)
            && self.y.abs_diff_eq(other.y, epsilon)
    }

    /// Whether every scalar of `self` is within `epsilon`, or within the
    /// relative tolerance `max_relative`, of its counterpart in `other`.
    pub open spec fn near_relative(self, other: Self, epsilon: S, max_relative: S) -> bool {
        &&& self.x.near_relative(other.x, epsilon, max_relative)
        &&& self.y.near_relative(other.y, epsilon, max_relative)
    }

    pub fn relative_eq(&self, other: &Self, epsilon: S, max_relative: S) -> (r: bool)
        ensures
            r == self.near_relative(*other, epsilon, max_relative),
    {
        self.x.relative_eq(other.x, epsilon, max_relative)
            && self.y.relative_eq(other.y, epsilon, max_relative)
    }

    /// Whether every scalar of `self` is within `epsilon`, or within `max_ulps`
    /// representable numbers, of its counterpart in `other`.
    pub open spec fn near_ulps(self, other: Self, epsilon: S, max_ulps: u32) -> bool {
        &&& self.x.near_ulps(other.x, epsilon, max_ulps)
        &&& self.y.near_ulps(other.y, epsilon, max_ulps)
    }

    pub fn ulps_eq(&self, other: &Self, epsilon: S, max_ulps: u32) -> (r: bool)
        ensures
            r == self.near_ulps(*other, epsilon, max_ulps),
    {
        self.x.ulps_eq(other.x, epsilon, max_ulps)
            && self.y.ulps_eq(other.y, epsilon, max_ulps)
    }
}

impl<S: ScalarFloat> Point3<S> {
    /// Whether every scalar of `self` is within `epsilon` of its counterpart in
    /// `other`.
    pub open spec fn near(self, other: Self, epsilon: S) -> bool {
        &&& self.x.near(other.x, epsilon)
        &&& self.y.near(other.y, epsilon)
        &&& self.z.near(other.z, epsilon)
    }

    pub fn abs_diff_eq(&self, other: &Self, epsilon: S) -> (r: bool)
        ensures
            r == self.near(*other, epsilon),
    {
        self.x.abs_diff_eq(other.x, epsilon)
            && self.y.abs_diff_eq(other.y, epsilon)
            && self.z.abs_diff_eq(other.z, epsilon)
    }

    /// Whether every scalar of `self` is within `epsilon`, or within the
    /// relative tolerance `max_relative`, of its counterpart in `other`.
    pub open spec fn near_relative(self, other: Self, epsilon: S, max_relative: S) -> bool {
        &&& self.x.near_relative(other.x, epsilon, max_relative)
        &&& self.y.near_relative(other.y, epsilon, max_relative)
        &&& self.z.near_relative(other.z, epsilon, max_relative)
    }

    pub fn relative_eq(&self, other: &Self, epsilon: S, max_relative: S) -> (r: bool)
        ensures
            r == self.near_relative(*other, epsilon, max_relative),
    {
        self.x.relative_eq(other.x, epsilon, max_relative)
            && self.y.relative_eq(other.y, epsilon, max_relative)
            && self.z.relative_eq(other.z, epsilon, max_relative)
    }

    /// Whether every scalar of `self` is within `epsilon`, or within `max_ulps`
    /// representable numbers, of its counterpart in `other`.
    pub open spec fn near_ulps(self, other: Self, epsilon: S, max_ulps: u32) -> bool {
        &&& self.x.near_ulps(other.x, epsilon, max_ulps)
        &&& self.y.near_ulps(other.y, epsilon, max_ulps)
        &&& self.z.near_ulps(other.z, epsilon, max_ulps)
    }

    pub fn ulps_eq(&self, other: &Self, epsilon: S, max_ulps: u32) -> (r: bool)
        ensures
            r == self.near_ulps(*other, epsilon, max_ulps),
    {
        self.x.ulps_eq(other.x, epsilon, max_ulps)
            && self.y.ulps_eq(other.y, epsilon, max_ulps)
            && self.z.ulps_eq(other.z, epsilon, max_ulps)
    }
}

impl<S: ScalarFloat> Matrix2x2<S> {
    /// Whether every scalar of `self` is within `epsilon` of its counterpart in
    /// `other`.
    pub open spec fn near(self, other: Self, epsilon: S) -> bool {
        &&& self.c0r0.near(other.c0r0, epsilon)
        &&& self.c0r1.near(other.c0r1, epsilon)
        &&& self.c1r0.near(other.c1r0, epsilon)
        &&& self.c1r1.near(other.c1r1, epsilon)
    }

    pub fn abs_diff_eq(&self, other: &Self, epsilon: S) -> (r: bool)
        ensures
            r == self.near(*other, epsilon),
    {
        self.c0r0.abs_diff_eq(other.c0r0, epsilon)
            && self.c0r1.abs_diff_eq(other.c0r1, epsilon)
            && self.c1r0.abs_diff_eq(other.c1r0, epsilon)
            && self.c1r1.abs_diff_eq(other.c1r1, epsilon)
    }

    /// Whether every scalar of `self` is within `epsilon`, or within the
    /// relative tolerance `max_relative`, of its counterpart in `other`.
    pub open spec fn near_relative(self, other: Self, epsilon: S, max_relative: S) -> bool {
        &&& self.c0r0.near_relative(other.c0r0, epsilon, max_relative)
        &&& self.c0r1.near_relative(other.c0r1, epsilon, max_relative)
        &&& self.c1r0.near_relative(other.c1r0, epsilon, max_relative)
        &&& self.c1r1.near_relative(other.c1r1, epsilon, max_relative)
    }

    pub fn relative_eq(&self, other: &Self, epsilon: S, max_relative: S) -> (r: bool)
        ensures
            r == self.near_relative(*other, epsilon, max_relative),
    {
        self.c0r0.relative_eq(other.c0r0, epsilon, max_relative)
            && self.c0r1.relative_eq(other.c0r1, epsilon, max_relative)
            && self.c1r0.relative_eq(other.c1r0, epsilon, max_relative)
            && self.c1r1.relative_eq(other.c1r1, epsilon, max_relative)
    }

    /// Whether every scalar of `self` is within `epsilon`, or within `max_ulps`
    /// representable numbers, of its counterpart in `other`.
    pub open spec fn near_ulps(self, other: Self, epsilon: S, max_ulps: u32) -> bool {
        &&& self.c0r0.near_ulps(other.c0r0, epsilon, max_ulps)
        &&& self.c0r1.near_ulps(other.c0r1, epsilon, max_ulps)
        &&& self.c1r0.near_ulps(other.c1r0, epsilon, max_ulps)
        &&& self.c1r1.near_ulps(other.c1r1, epsilon, max_ulps)
    }

    pub fn ulps_eq(&self, other: &Self, epsilon: S, max_ulps: u32) -> (r: bool)
        ensures
            r == self.near_ulps(*other, epsilon, max_ulps),
    {
        self.c0r0.ulps_eq(other.c0r0, epsilon, max_ulps)
            && self.c0r1.ulps_eq(other.c0r1, epsilon, max_ulps)
            && self.c1r0.ulps_eq(other.c1r0, epsilon, max_ulps)
            && self.c1r1.ulps_eq(other.c1r1, epsilon, max_ulps)
    }
}

impl<S: ScalarFloat> Matrix3x3<S> {
    /// Whether every scalar of `self` is within `epsilon` of its counterpart in
    /// `other`.
    pub open spec fn near(self, other: Self, epsilon: S) -> bool {
        &&& self.c0r0.near(other.c0r0, epsilon)
        &&& self.c0r1.near(other.c0r1, epsilon)
        &&& self.c0r2.near(other.c0r2, epsilon)
        &&& self.c1r0.near(other.c1r0, epsilon)
        &&& self.c1r1.near(other.c1r1, epsilon)
        &&& self.c1r2.near(other.c1r2, epsilon)
        &&& self.c2r0.near(other.c2r0, epsilon)
        &&& self.c2r1.near(other.c2r1, epsilon)
        &&& self.c2r2.near(other.c2r2, epsilon)
    }

    pub fn abs_diff_eq(&self, other: &Self, epsilon: S) -> (r: bool)
        ensures
            r == self.near(*other, epsilon),
    {
        self.c0r0.abs_diff_eq(other.c0r0, epsilon)
            && self.c0r1.abs_diff_eq(other.c0r1, epsilon)
            && self.c0r2.abs_diff_eq(other.c0r2, epsilon)
            && self.c1r0.abs_diff_eq(other.c1r0, epsilon)
            && self.c1r1.abs_diff_eq(other.c1r1, epsilon)
            && self.c1r2.abs_diff_eq(other.c1r2, epsilon)
            && self.c2r0.abs_diff_eq(other.c2r0, epsilon)
            && self.c2r1.abs_diff_eq(other.c2r1, epsilon)
            && self.c2r2.abs_diff_eq(other.c2r2, epsilon)
    }

    /// Whether every scalar of `self` is within `epsilon`, or within the
    /// relative tolerance `max_relative`, of its counterpart in `other`.
    pub open spec fn near_relative(self, other: Self, epsilon: S, max_relative: S) -> bool {
        &&& self.c0r0.near_relative(other.c0r0, epsilon, max_relative)
        &&& self.c0r1.near_relative(other.c0r1, epsilon, max_relative)
        &&& self.c0r2.near_relative(other.c0r2, epsilon, max_relative)
        &&& self.c1r0.near_relative(other.c1r0, epsilon, max_relative)
        &&& self.c1r1.near_relative(other.c1r1, epsilon, max_relative)
        &&& self.c1r2.near_relative(other.c1r2, epsilon, max_relative)
        &&& self.c2r0.near_relative(other.c2r0, epsilon, max_relative)
        &&& self.c2r1.near_relative(other.c2r1, epsilon, max_relative)
        &&& self.c2r2.near_relative(other.c2r2, epsilon, max_relative)
    }

    pub fn relative_eq(&self, other: &Self, epsilon: S, max_relative: S) -> (r: bool)
        ensures
            r == self.near_relative(*other, epsilon, max_relative),
    {
        self.c0r0.relative_eq(other.c0r0, epsilon, max_relative)
            && self.c0r1.relative_eq(other.c0r1, epsilon, max_relative)
            && self.c0r2.relative_eq(other.c0r2, epsilon, max_relative)
            && self.c1r0.relative_eq(other.c1r0, epsilon, max_relative)
            && self.c1r1.relative_eq(other.c1r1, epsilon, max_relative)
            && self.c1r2.relative_eq(other.c1r2, epsilon, max_relative)
            && self.c2r0.relative_eq(other.c2r0, epsilon, max_relative)
            && self.c2r1.relative_eq(other.c2r1, epsilon, max_relative)
            && self.c2r2.relative_eq(other.c2r2, epsilon, max_relative)
    }

    /// Whether every scalar of `self` is within `epsilon`, or within `max_ulps`
    /// representable numbers, of its counterpart in `other`.
    pub open spec fn near_ulps(self, other: Self, epsilon: S, max_ulps: u32) -> bool {
        &&& self.c0r0.near_ulps(other.c0r0, epsilon, max_ulps)
        &&& self.c0r1.near_ulps(other.c0r1, epsilon, max_ulps)
        &&& self.c0r2.near_ulps(other.c0r2, epsilon, max_ulps)
        &&& self.c1r0.near_ulps(other.c1r0, epsilon, max_ulps)
        &&& self.c1r1.near_ulps(other.c1r1, epsilon, max_ulps)
        &&& self.c1r2.near_ulps(other.c1r2, epsilon, max_ulps)
        &&& self.c2r0.near_ulps(other.c2r0, epsilon, max_ulps)
        &&& self.c2r1.near_ulps(other.c2r1, epsilon, max_ulps)
        &&& self.c2r2.near_ulps(other.c2r2, epsilon, max_ulps)
    }

    pub fn ulps_eq(&self, other: &Self, epsilon: S, max_ulps: u32) -> (r: bool)
        ensures
            r == self.near_ulps(*other, epsilon, max_ulps),
    {
        self.c0r0.ulps_eq(other.c0r0, epsilon, max_ulps)
            && self.c0r1.ulps_eq(other.c0r1, epsilon, max_ulps)
            && self.c0r2.ulps_eq(other.c0r2, epsilon, max_ulps)
            && self.c1r0.ulps_eq(other.c1r0, epsilon, max_ulps)
            && self.c1r1.ulps_eq(other.c1r1, epsilon, max_ulps)
            && self.c1r2.ulps_eq(other.c1r2, epsilon, max_ulps)
            && self.c2r0.ulps_eq(other.c2r0, epsilon, max_ulps)
            && self.c2r1.ulps_eq(other.c2r1, epsilon, max_ulps)
            && self.c2r2.ulps_eq(other.c2r2, epsilon, max_ulps)
    }
}

impl<S: ScalarFloat> Matrix4x4<S> {
    /// Whether every scalar of `self` is within `epsilon` of its counterpart in
    /// `other`.
    pub open spec fn near(self, other: Self, epsilon: S) -> bool {
        &&& self.c0r0.near(other.c0r0, epsilon)
        &&& self.c0r1.near(other.c0r1, epsilon)
        &&& self.c0r2.near(other.c0r2, epsilon)
        &&& self.c0r3.near(other.c0r3, epsilon)
        &&& self.c1r0.near(other.c1r0, epsilon)
        &&& self.c1r1.near(other.c1r1, epsilon)
        &&& self.c1r2.near(other.c1r2, epsilon)
        &&& self.c1r3.near(other.c1r3, epsilon)
        &&& self.c2r0.near(other.c2r0, epsilon)
        &&& self.c2r1.near(other.c2r1, epsilon)
        &&& self.c2r2.near(other.c2r2, epsilon)
        &&& self.c2r3.near(other.c2r3, epsilon)
        &&& self.c3r0.near(other.c3r0, epsilon)
        &&& self.c3r1.near(other.c3r1, epsilon)
        &&& self.c3r2.near(other.c3r2, epsilon)
        &&& self.c3r3.near(other.c3r3, epsilon)
    }

    pub fn abs_diff_eq(&self, other: &Self, epsilon: S) -> (r: bool)
        ensures
            r == self.near(*other, epsilon),
    {
        self.c0r0.abs_diff_eq(other.c0r0, epsilon)
            && self.c0r1.abs_diff_eq(other.c0r1, epsilon)
            && self.c0r2.abs_diff_eq(other.c0r2, epsilon)
            && self.c0r3.abs_diff_eq(other.c0r3, epsilon)
            && self.c1r0.abs_diff_eq(other.c1r0, epsilon)
            && self.c1r1.abs_diff_eq(other.c1r1, epsilon)
            && self.c1r2.abs_diff_eq(other.c1r2, epsilon)
            && self.c1r3.abs_diff_eq(other.c1r3, epsilon)
            && self.c2r0.abs_diff_eq(other.c2r0, epsilon)
            && self.c2r1.abs_diff_eq(other.c2r1, epsilon)
            && self.c2r2.abs_diff_eq(other.c2r2, epsilon)
            && self.c2r3.abs_diff_eq(other.c2r3, epsilon)
            && self.c3r0.abs_diff_eq(other.c3r0, epsilon)
            && self.c3r1.abs_diff_eq(other.c3r1, epsilon)
            && self.c3r2.abs_diff_eq(other.c3r2, epsilon)
            && self.c3r3.abs_diff_eq(other.c3r3, epsilon)
    }

    /// Whether every scalar of `self` is within `epsilon`, or within the
    /// relative tolerance `max_relative`, of its counterpart in `other`.
    pub open spec fn near_relative(self, other: Self, epsilon: S, max_relative: S) -> bool {
        &&& self.c0r0.near_relative(other.c0r0, epsilon, max_relative)
        &&& self.c0r1.near_relative(other.c0r1, epsilon, max_relative)
        &&& self.c0r2.near_relative(other.c0r2, epsilon, max_relative)
        &&& self.c0r3.near_relative(other.c0r3, epsilon, max_relative)
        &&& self.c1r0.near_relative(other.c1r0, epsilon, max_relative)
        &&& self.c1r1.near_relative(other.c1r1, epsilon, max_relative)
        &&& self.c1r2.near_relative(other.c1r2, epsilon, max_relative)
        &&& self.c1r3.near_relative(other.c1r3, epsilon, max_relative)
        &&& self.c2r0.near_relative(other.c2r0, epsilon, max_relative)
        &&& self.c2r1.near_relative(other.c2r1, epsilon, max_relative)
        &&& self.c2r2.near_relative(other.c2r2, epsilon, max_relative)
        &&& self.c2r3.near_relative(other.c2r3, epsilon, max_relative)
        &&& self.c3r0.near_relative(other.c3r0, epsilon, max_relative)
        &&& self.c3r1.near_relative(other.c3r1, epsilon, max_relative)
        &&& self.c3r2.near_relative(other.c3r2, epsilon, max_relative)
        &&& self.c3r3.near_relative(other.c3r3, epsilon, max_relative)
    }

    pub fn relative_eq(&self, other: &Self, epsilon: S, max_relative: S) -> (r: bool)
        ensures
            r == self.near_relative(*other, epsilon, max_relative),
    {
        self.c0r0.relative_eq(other.c0r0, epsilon, max_relative)
            && self.c0r1.relative_eq(other.c0r1, epsilon, max_relative)
            && self.c0r2.relative_eq(other.c0r2, epsilon, max_relative)
            && self.c0r3.relative_eq(other.c0r3, epsilon, max_relative)
            && self.c1r0.relative_eq(other.c1r0, epsilon, max_relative)
            && self.c1r1.relative_eq(other.c1r1, epsilon, max_relative)
            && self.c1r2.relative_eq(other.c1r2, epsilon, max_relative)
            && self.c1r3.relative_eq(other.c1r3, epsilon, max_relative)
            && self.c2r0.relative_eq(other.c2r0, epsilon, max_relative)
            && self.c2r1.relative_eq(other.c2r1, epsilon, max_relative)
            && self.c2r2.relative_eq(other.c2r2, epsilon, max_relative)
            && self.c2r3.relative_eq(other.c2r3, epsilon, max_relative)
            && self.c3r0.relative_eq(other.c3r0, epsilon, max_relative)
            && self.c3r1.relative_eq(other.c3r1, epsilon, max_relative)
            && self.c3r2.relative_eq(other.c3r2, epsilon, max_relative)
            && self.c3r3.relative_eq(other.c3r3, epsilon, max_relative)
    }

    /// Whether every scalar of `self` is within `epsilon`, or within `max_ulps`
    /// representable numbers, of its counterpart in `other`.
    pub open spec fn near_ulps(self, other: Self, epsilon: S, max_ulps: u32) -> bool {
        &&& self.c0r0.near_ulps(other.c0r0, epsilon, max_ulps)
        &&& self.c0r1.near_ulps(other.c0r1, epsilon, max_ulps)
        &&& self.c0r2.near_ulps(other.c0r2, epsilon, max_ulps)
        &&& self.c0r3.near_ulps(other.c0r3, epsilon, max_ulps)
        &&& self.c1r0.near_ulps(other.c1r0, epsilon, max_ulps)
        &&& self.c1r1.near_ulps(other.c1r1, epsilon, max_ulps)
        &&& self.c1r2.near_ulps(other.c1r2, epsilon, max_ulps)
        &&& self.c1r3.near_ulps(other.c1r3, epsilon, max_ulps)
        &&& self.c2r0.near_ulps(other.c2r0, epsilon, max_ulps)
        &&& self.c2r1.near_ulps(other.c2r1, epsilon, max_ulps)
        &&& self.c2r2.near_ulps(other.c2r2, epsilon, max_ulps)
        &&& self.c2r3.near_ulps(other.c2r3, epsilon, max_ulps)
        &&& self.c3r0.near_ulps(other.c3r0, epsilon, max_ulps)
        &&& self.c3r1.near_ulps(other.c3r1, epsilon, max_ulps)
        &&& self.c3r2.near_ulps(other.c3r2, epsilon, max_ulps)
        &&& self.c3r3.near_ulps(other.c3r3, epsilon, max_ulps)
    }

    pub fn ulps_eq(&self, other: &Self, epsilon: S, max_ulps: u32) -> (r: bool)
        ensures
            r == self.near_ulps(*other, epsilon, max_ulps),
    {
        self.c0r0.ulps_eq(other.c0r0, epsilon, max_ulps)
            && self.c0r1.ulps_eq(other.c0r1, epsilon, max_ulps)
            && self.c0r2.ulps_eq(other.c0r2, epsilon, max_ulps)
            && self.c0r3.ulps_eq(other.c0r3, epsilon, max_ulps)
            && self.c1r0.ulps_eq(other.c1r0, epsilon, max_ulps)
            && self.c1r1.ulps_eq(other.c1r1, epsilon, max_ulps)
            && self.c1r2.ulps_eq(other.c1r2, epsilon, max_ulps)
            && self.c1r3.ulps_eq(other.c1r3, epsilon, max_ulps)
            && self.c2r0.ulps_eq(other.c2r0, epsilon, max_ulps)
            && self.c2r1.ulps_eq(other.c2r1, epsilon, max_ulps)
            && self.c2r2.ulps_eq(other.c2r2, epsilon, max_ulps)
            && self.c2r3.ulps_eq(other.c2r3, epsilon, max_ulps)
            && self.c3r0.ulps_eq(other.c3r0, epsilon, max_ulps)
            && self.c3r1.ulps_eq(other.c3r1, epsilon, max_ulps)
            && self.c3r2.ulps_eq(other.c3r2, epsilon, max_ulps)
            && self.c3r3.ulps_eq(other.c3r3, epsilon, max_ulps)
    }
}

impl<S: ScalarFloat> Rotation2<S> {
    /// Whether every scalar of `self` is within `epsilon` of its counterpart in
    /// `other`.
    pub open spec fn near(self, other: Self, epsilon: S) -> bool {
        &&& self.matrix.near(other.matrix, epsilon)
    }

    pub fn abs_diff_eq(&self, other: &Self, epsilon: S) -> (r: bool)
        ensures
            r == self.near(*other, epsilon),
    {
        self.matrix.abs_diff_eq(&other.matrix, epsilon)
    }

    /// Whether every scalar of `self` is within `epsilon`, or within the
    /// relative tolerance `max_relative`, of its counterpart in `other`.
    pub open spec fn near_relative(self, other: Self, epsilon: S, max_relative: S) -> bool {
        &&& self.matrix.near_relative(other.matrix, epsilon, max_relative)
    }

    pub fn relative_eq(&self, other: &Self, epsilon: S, max_relative: S) -> (r: bool)
        ensures
            r == self.near_relative(*other, epsilon, max_relative),
    {
        self.matrix.relative_eq(&other.matrix, epsilon, max_relative)
    }

    /// Whether every scalar of `self` is within `epsilon`, or within `max_ulps`
    /// representable numbers, of its counterpart in `other`.
    pub open spec fn near_ulps(self, other: Self, epsilon: S, max_ulps: u32) -> bool {
        &&& self.matrix.near_ulps(other.matrix, epsilon, max_ulps)
    }

    pub fn ulps_eq(&self, other: &Self, epsilon: S, max_ulps: u32) -> (r: bool)
        ensures
            r == self.near_ulps(*other, epsilon, max_ulps),
    {
        self.matrix.ulps_eq(&other.matrix, epsilon, max_ulps)
    }
}

impl<S: ScalarFloat> Translation2<S> {
    /// Whether every scalar of `self` is within `epsilon` of its counterpart in
    /// `other`.
    pub open spec fn near(self, other: Self, epsilon: S) -> bool {
        &&& self.vector.near(other.vector, epsilon)
    }

    pub fn abs_diff_eq(&self, other: &Self, epsilon: S) -> (r: bool)
        ensures
            r == self.near(*other, epsilon),
    {
        self.vector.abs_diff_eq(&other.vector, epsilon)
    }

    /// Whether every scalar of `self` is within `epsilon`, or within the
    /// relative tolerance `max_relative`, of its counterpart in `other`.
    pub open spec fn near_relative(self, other: Self, epsilon: S, max_relative: S) -> bool {
        &&& self.vector.near_relative(other.vector, epsilon, max_relative)
    }

    pub fn relative_eq(&self, other: &Self, epsilon: S, max_relative: S) -> (r: bool)
        ensures
            r == self.near_relative(*other, epsilon, max_relative),
    {
        self.vector.relative_eq(&other.vector, epsilon, max_relative)
    }

    /// Whether every scalar of `self` is within `epsilon`, or within `max_ulps`
    /// representable numbers, of its counterpart in `other`.
    pub open spec fn near_ulps(self, other: Self, epsilon: S, max_ulps: u32) -> bool {
        &&& self.vector.near_ulps(other.vector, epsilon, max_ulps)
    }

    pub fn ulps_eq(&self, other: &Self, epsilon: S, max_ulps: u32) -> (r: bool)
        ensures
            r == self.near_ulps(*other, epsilon, max_ulps),
    {
        self.vector.ulps_eq(&other.vector, epsilon, max_ulps)
    }
}

impl<S: ScalarFloat> Isometry2<S> {
    /// Whether every scalar of `self` is within `epsilon` of its counterpart in
    /// `other`.
    pub open spec fn near(self, other: Self, epsilon: S) -> bool {
        &&& self.rotation.near(other.rotation, epsilon)
        &&& self.translation.near(other.translation, epsilon)
    }

    pub fn abs_diff_eq(&self, other: &Self, epsilon: S) -> (r: bool)
        ensures
            r == self.near(*other, epsilon),
    {
        self.rotation.abs_diff_eq(&other.rotation, epsilon)
            && self.translation.abs_diff_eq(&other.translation, epsilon)
    }

    /// Whether every scalar of `self` is within `epsilon`, or within the
    /// relative tolerance `max_relative`, of its counterpart in `other`.
    pub open spec fn near_relative(self, other: Self, epsilon: S, max_relative: S) -> bool {
        &&& self.rotation.near_relative(other.rotation, epsilon, max_relative)
        &&& self.translation.near_relative(other.translation, epsilon, max_relative)
    }

    pub fn relative_eq(&self, other: &Self, epsilon: S, max_relative: S) -> (r: bool)
        ensures
            r == self.near_relative(*other, epsilon, max_relative),
    {
        self.rotation.relative_eq(&other.rotation, epsilon, max_relative)
            && self.translation.relative_eq(&other.translation, epsilon, max_relative)
    }

    /// Whether every scalar of `self` is within `epsilon`, or within `max_ulps`
    /// representable numbers, of its counterpart in `other`.
    pub open spec fn near_ulps(self, other: Self, epsilon: S, max_ulps: u32) -> bool {
        &&& self.rotation.near_ulps(other.rotation, epsilon, max_ulps)
        &&& self.translation.near_ulps(other.translation, epsilon, max_ulps)
    }

    pub fn ulps_eq(&self, other: &Self, epsilon: S, max_ulps: u32) -> (r: bool)
        ensures
            r == self.near_ulps(*other, epsilon, max_ulps),
    {
        self.rotation.ulps_eq(&other.rotation, epsilon, max_ulps)
            && self.translation.ulps_eq(&other.translation, epsilon, max_ulps)
    }
}

impl<S: ScalarFloat> Similarity2<S> {
    /// Whether every scalar of `self` is within `epsilon` of its counterpart in
    /// `other`.
    pub open spec fn near(self, other: Self, epsilon: S) -> bool {
        &&& self.isometry.near(other.isometry, epsilon)
        &&& self.scale.near(other.scale, epsilon)
    }

    pub fn abs_diff_eq(&self, other: &Self, epsilon: S) -> (r: bool)
        ensures
            r == self.near(*other, epsilon),
    {
        self.isometry.abs_diff_eq(&other.isometry, epsilon)
            && self.scale.abs_diff_eq(other.scale, epsilon)
    }

    /// Whether every scalar of `self` is within `epsilon`, or within the
    /// relative tolerance `max_relative`, of its counterpart in `other`.
    pub open spec fn near_relative(self, other: Self, epsilon: S, max_relative: S) -> bool {
        &&& self.isometry.near_relative(other.isometry, epsilon, max_relative)
        &&& self.scale.near_relative(other.scale, epsilon, max_relative)
    }

    pub fn relative_eq(&self, other: &Self, epsilon: S, max_relative: S) -> (r: bool)
        ensures
            r == self.near_relative(*other, epsilon, max_relative),
    {
        self.isometry.relative_eq(&other.isometry, epsilon, max_relative)
            && self.scale.relative_eq(other.scale, epsilon, max_relative)
    }

    /// Whether every scalar of `self` is within `epsilon`, or within `max_ulps`
    /// representable numbers, of its counterpart in `other`.
    pub open spec fn near_ulps(self, other: Self, epsilon: S, max_ulps: u32) -> bool {
        &&& self.isometry.near_ulps(other.isometry, epsilon, max_ulps)
        &&& self.scale.near_ulps(other.scale, epsilon, max_ulps)
    }

    pub fn ulps_eq(&self, other: &Self, epsilon: S, max_ulps: u32) -> (r: bool)
        ensures
            r == self.near_ulps(*other, epsilon, max_ulps),
    {
        self.isometry.ulps_eq(&other.isometry, epsilon, max_ulps)
            && self.scale.ulps_eq(other.scale, epsilon, max_ulps)
    }
}

impl<S: ScalarFloat> Rotation3<S> {
    /// Whether every scalar of `self` is within `epsilon` of its counterpart in
    /// `other`.
    pub open spec fn near(self, other: Self, epsilon: S) -> bool {
        &&& self.matrix.near(other.matrix, epsilon)
    }

    pub fn abs_diff_eq(&self, other: &Self, epsilon: S) -> (r: bool)
        ensures
            r == self.near(*other, epsilon),
    {
        self.matrix.abs_diff_eq(&other.matrix, epsilon)
    }

    /// Whether every scalar of `self` is within `epsilon`, or within the
    /// relative tolerance `max_relative`, of its counterpart in `other`.
    pub open spec fn near_relative(self, other: Self, epsilon: S, max_relative: S) -> bool {
        &&& self.matrix.near_relative(other.matrix, epsilon, max_relative)
    }

    pub fn relative_eq(&self, other: &Self, epsilon: S, max_relative: S) -> (r: bool)
        ensures
            r == self.near_relative(*other, epsilon, max_relative),
    {
        self.matrix.relative_eq(&other.matrix, epsilon, max_relative)
    }

    /// Whether every scalar of `self` is within `epsilon`, or within `max_ulps`
    /// representable numbers, of its counterpart in `other`.
    pub open spec fn near_ulps(self, other: Self, epsilon: S, max_ulps: u32) -> bool {
        &&& self.matrix.near_ulps(other.matrix, epsilon, max_ulps)
    }

    pub fn ulps_eq(&self, other: &Self, epsilon: S, max_ulps: u32) -> (r: bool)
        ensures
            r == self.near_ulps(*other, epsilon, max_ulps),
    {
        self.matrix.ulps_eq(&other.matrix, epsilon, max_ulps)
    }
}

impl<S: ScalarFloat> Translation3<S> {
    /// Whether every scalar of `self` is within `epsilon` of its counterpart in
    /// `other`.
    pub open spec fn near(self, other: Self, epsilon: S) -> bool {
        &&& self.vector.near(other.vector, epsilon)
    }

    pub fn abs_diff_eq(&self, other: &Self, epsilon: S) -> (r: bool)
        ensures
            r == self.near(*other, epsilon),
    {
        self.vector.abs_diff_eq(&other.vector, epsilon)
    }

    /// Whether every scalar of `self` is within `epsilon`, or within the
    /// relative tolerance `max_relative`, of its counterpart in `other`.
    pub open spec fn near_relative(self, other: Self, epsilon: S, max_relative: S) -> bool {
        &&& self.vector.near_relative(other.vector, epsilon, max_relative)
    }

    pub fn relative_eq(&self, other: &Self, epsilon: S, max_relative: S) -> (r: bool)
        ensures
            r == self.near_relative(*other, epsilon, max_relative),
    {
        self.vector.relative_eq(&other.vector, epsilon, max_relative)
    }

    /// Whether every scalar of `self` is within `epsilon`, or within `max_ulps`
    /// representable numbers, of its counterpart in `other`.
    pub open spec fn near_ulps(self, other: Self, epsilon: S, max_ulps: u32) -> bool {
        &&& self.vector.near_ulps(other.vector, epsilon, max_ulps)
    }

    pub fn ulps_eq(&self, other: &Self, epsilon: S, max_ulps: u32) -> (r: bool)
        ensures
            r == self.near_ulps(*other, epsilon, max_ulps),
    {
        self.vector.ulps_eq(&other.vector, epsilon, max_ulps)
    }
}

impl<S: ScalarFloat> Isometry3<S> {
    /// Whether every scalar of `self` is within `epsilon` of its counterpart in
    /// `other`.
    pub open spec fn near(self, other: Self, epsilon: S) -> bool {
        &&& self.rotation.near(other.rotation, epsilon)
        &&& self.translation.near(other.translation, epsilon)
    }

    pub fn abs_diff_eq(&self, other: &Self, epsilon: S) -> (r: bool)
        ensures
            r == self.near(*other, epsilon),
    {
        self.rotation.abs_diff_eq(&other.rotation, epsilon)
            && self.translation.abs_diff_eq(&other.translation, epsilon)
    }

    /// Whether every scalar of `self` is within `epsilon`, or within the
    /// relative tolerance `max_relative`, of its counterpart in `other`.
    pub open spec fn near_relative(self, other: Self, epsilon: S, max_relative: S) -> bool {
        &&& self.rotation.near_relative(other.rotation, epsilon, max_relative)
        &&& self.translation.near_relative(other.translation, epsilon, max_relative)
    }

    pub fn relative_eq(&self, other: &Self, epsilon: S, max_relative: S) -> (r: bool)
        ensures
            r == self.near_relative(*other, epsilon, max_relative),
    {
        self.rotation.relative_eq(&other.rotation, epsilon, max_relative)
            && self.translation.relative_eq(&other.translation, epsilon, max_relative)
    }

    /// Whether every scalar of `self` is within `epsilon`, or within `max_ulps`
    /// representable numbers, of its counterpart in `other`.
    pub open spec fn near_ulps(self, other: Self, epsilon: S, max_ulps: u32) -> bool {
        &&& self.rotation.near_ulps(other.rotation, epsilon, max_ulps)
        &&& self.translation.near_ulps(other.translation, epsilon, max_ulps)
    }

    pub fn ulps_eq(&self, other: &Self, epsilon: S, max_ulps: u32) -> (r: bool)
        ensures
            r == self.near_ulps(*other, epsilon, max_ulps),
    {
        self.rotation.ulps_eq(&other.rotation, epsilon, max_ulps)
            && self.translation.ulps_eq(&other.translation, epsilon, max_ulps)
    }
}

impl<S: ScalarFloat> Similarity3<S> {
    /// Whether every scalar of `self` is within `epsilon` of its counterpart in
    /// `other`.
    pub open spec fn near(self, other: Self, epsilon: S) -> bool {
        &&& self.isometry.near(other.isometry, epsilon)
        &&& self.scale.near(other.scale, epsilon)
    }

    pub fn abs_diff_eq(&self, other: &Self, epsilon: S) -> (r: bool)
        ensures
            r == self.near(*other, epsilon),
    {
        self.isometry.abs_diff_eq(&other.isometry, epsilon)
            && self.scale.abs_diff_eq(other.scale, epsilon)
    }

    /// Whether every scalar of `self` is within `epsilon`, or within the
    /// relative tolerance `max_relative`, of its counterpart in `other`.
    pub open spec fn near_relative(self, other: Self, epsilon: S, max_relative: S) -> bool {
        &&& self.isometry.near_relative(other.isometry, epsilon, max_relative)
        &&& self.scale.near_relative(other.scale, epsilon, max_relative)
    }

    pub fn relative_eq(&self, other: &Self, epsilon: S, max_relative: S) -> (r: bool)
        ensures
            r == self.near_relative(*other, epsilon, max_relative),
    {
        self.isometry.relative_eq(&other.isometry, epsilon, max_relative)
            && self.scale.relative_eq(other.scale, epsilon, max_relative)
    }

    /// Whether every scalar of `self` is within `epsilon`, or within `max_ulps`
    /// representable numbers, of its counterpart in `other`.
    pub open spec fn near_ulps(self, other: Self, epsilon: S, max_ulps: u32) -> bool {
        &&& self.isometry.near_ulps(other.isometry, epsilon, max_ulps)
        &&& self.scale.near_ulps(other.scale, epsilon, max_ulps)
    }

    pub fn ulps_eq(&self, other: &Self, epsilon: S, max_ulps: u32) -> (r: bool)
        ensures
            r == self.near_ulps(*other, epsilon, max_ulps),
    {
        self.isometry.ulps_eq(&other.isometry, epsilon, max_ulps)
            && self.scale.ulps_eq(other.scale, epsilon, max_ulps)
    }
}

} // verus!
