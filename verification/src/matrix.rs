//! Square matrices of two, three, and four dimensions, stored by columns.
//!
//! The field `c1r0` holds the entry in column 1 and row 0. A matrix acts on a
//! column vector from the left, so the product `a.times(b)` applies `b` first.

use crate::scalar::{Scalar, ScalarSigned};
use crate::vector::{Vector2, Vector3, Vector4};
use vstd::prelude::*;

verus! {

/// A matrix of two columns and two rows.
#[derive(Clone, Copy, Debug, PartialEq)]
pub struct Matrix2x2<S> {
    pub c0r0: S,
    pub c0r1: S,
    pub c1r0: S,
    pub c1r1: S,
}

/// A matrix of three columns and three rows.
#[derive(Clone, Copy, Debug, PartialEq)]
pub struct Matrix3x3<S> {
    pub c0r0: S,
    pub c0r1: S,
    pub c0r2: S,
    pub c1r0: S,
    pub c1r1: S,
    pub c1r2: S,
    pub c2r0: S,
    pub c2r1: S,
    pub c2r2: S,
}

/// A matrix of four columns and four rows.
#[derive(Clone, Copy, Debug, PartialEq)]
pub struct Matrix4x4<S> {
    pub c0r0: S,
    pub c0r1: S,
    pub c0r2: S,
    pub c0r3: S,
    pub c1r0: S,
    pub c1r1: S,
    pub c1r2: S,
    pub c1r3: S,
    pub c2r0: S,
    pub c2r1: S,
    pub c2r2: S,
    pub c2r3: S,
    pub c3r0: S,
    pub c3r1: S,
    pub c3r2: S,
    pub c3r3: S,
}

impl<S: Scalar> Matrix2x2<S> {
    pub open spec fn col0(self) -> Vector2<S> {
        Vector2 { x: self.c0r0, y: self.c0r1 }
    }

    pub open spec fn col1(self) -> Vector2<S> {
        Vector2 { x: self.c1r0, y: self.c1r1 }
    }

    pub open spec fn row0(self) -> Vector2<S> {
        Vector2 { x: self.c0r0, y: self.c1r0 }
    }

    pub open spec fn row1(self) -> Vector2<S> {
        Vector2 { x: self.c0r1, y: self.c1r1 }
    }

    /// The matrix with the given columns.
    pub open spec fn from_columns(c0: Vector2<S>, c1: Vector2<S>) -> Self {
        Matrix2x2 { c0r0: c0.x, c0r1: c0.y, c1r0: c1.x, c1r1: c1.y }
    }

    /// The identity matrix.
    pub open spec fn identity_value() -> Self {
        Matrix2x2 {
            c0r0: S::one_value(),
            c0r1: S::zero_value(),
            c1r0: S::zero_value(),
            c1r1: S::one_value(),
        }
    }

    /// The matrix mirrored in its diagonal.
    pub open spec fn transposed(self) -> Self {
        Matrix2x2 { c0r0: self.c0r0, c0r1: self.c1r0, c1r0: self.c0r1, c1r1: self.c1r1 }
    }

    /// The product of the matrix with the column vector `v`: each coordinate
    /// is the dot product of a row with `v`.
    pub open spec fn apply(self, v: Vector2<S>) -> Vector2<S> {
        Vector2 { x: self.row0().dot_product(v), y: self.row1().dot_product(v) }
    }

    /// The matrix product: each column is `self` applied to a column of
    /// `other`.
    pub open spec fn times(self, other: Self) -> Self {
        Self::from_columns(self.apply(other.col0()), self.apply(other.col1()))
    }

    /// Every entry multiplied by `s` on the left.
    pub open spec fn scaled_by(self, s: S) -> Self {
        Matrix2x2 {
            c0r0: s.times(self.c0r0),
            c0r1: s.times(self.c0r1),
            c1r0: s.times(self.c1r0),
            c1r1: s.times(self.c1r1),
        }
    }

    /// The determinant.
    pub open spec fn determinant_value(self) -> S {
        self.c0r0.times(self.c1r1).minus(self.c1r0.times(self.c0r1))
    }

    /// Builds a matrix from its entries, column by column.
    pub fn new(c0r0: S, c0r1: S, c1r0: S, c1r1: S) -> (r: Self)
        ensures
            r == (Matrix2x2 { c0r0, c0r1, c1r0, c1r1 }),
    {
        Matrix2x2 { c0r0, c0r1, c1r0, c1r1 }
    }

    pub fn identity() -> (r: Self)
        ensures
            r == Self::identity_value(),
    {
        Matrix2x2 { c0r0: S::one(), c0r1: S::zero(), c1r0: S::zero(), c1r1: S::one() }
    }

    pub fn transpose(&self) -> (r: Self)
        ensures
            r == self.transposed(),
    {
        Matrix2x2 { c0r0: self.c0r0, c0r1: self.c1r0, c1r0: self.c0r1, c1r1: self.c1r1 }
    }

    pub fn mul_vector(&self, v: &Vector2<S>) -> (r: Vector2<S>)
        ensures
            r == self.apply(*v),
    {
        Vector2 {
            x: self.c0r0.mul(v.x).add(self.c1r0.mul(v.y)),
            y: self.c0r1.mul(v.x).add(self.c1r1.mul(v.y)),
        }
    }

    pub fn mul(&self, other: &Self) -> (r: Self)
        ensures
            r == self.times(*other),
    {
        let c0 = self.mul_vector(&Vector2 { x: other.c0r0, y: other.c0r1 });
        let c1 = self.mul_vector(&Vector2 { x: other.c1r0, y: other.c1r1 });
        Matrix2x2 { c0r0: c0.x, c0r1: c0.y, c1r0: c1.x, c1r1: c1.y }
    }

    /// Multiplies every entry by `s`.
    pub fn scale(&self, s: S) -> (r: Self)
        ensures
            r == self.scaled_by(s),
    {
        Matrix2x2 {
            c0r0: s.mul(self.c0r0),
            c0r1: s.mul(self.c0r1),
            c1r0: s.mul(self.c1r0),
            c1r1: s.mul(self.c1r1),
        }
    }

    pub fn determinant(&self) -> (r: S)
        ensures
            r == self.determinant_value(),
    {
        self.c0r0.mul(self.c1r1).sub(self.c1r0.mul(self.c0r1))
    }
}

impl<S: ScalarSigned> Matrix2x2<S> {
    /// The adjugate: the diagonal entries exchanged, the others negated.
    pub open spec fn adjugate(self) -> Self {
        Matrix2x2 {
            c0r0: self.c1r1,
            c0r1: self.c0r1.negated(),
            c1r0: self.c1r0.negated(),
            c1r1: self.c0r0,
        }
    }

    /// The matrix with `d` in both places of the diagonal and zero
    /// elsewhere.
    pub open spec fn scalar_value(d: S) -> Self {
        Matrix2x2 { c0r0: d, c0r1: S::zero_value(), c1r0: S::zero_value(), c1r1: d }
    }

    /// The inverse by Cramer's rule: the adjugate times the reciprocal of the
    /// determinant, or nothing where the determinant compares equal to zero.
    pub open spec fn inverse_value(self) -> Option<Self> {
        if self.determinant_value().vanishes() {
            None
        } else {
            Some(self.adjugate().scaled_by(S::one_value().over(self.determinant_value())))
        }
    }

    /// Inverts the matrix. A matrix whose determinant compares equal to zero
    /// has no inverse.
    pub fn inverse(&self) -> (r: Option<Self>)
        ensures
            r == self.inverse_value(),
    {
        let det = self.determinant();
        if det.is_zero() {
            None
        } else {
            let adjugate = Matrix2x2 {
                c0r0: self.c1r1,
                c0r1: self.c0r1.neg(),
                c1r0: self.c1r0.neg(),
                c1r1: self.c0r0,
            };
            Some(adjugate.scale(S::one().div(det)))
        }
    }
}

impl<S: Scalar> Matrix3x3<S> {
    pub open spec fn col0(self) -> Vector3<S> {
        Vector3 { x: self.c0r0, y: self.c0r1, z: self.c0r2 }
    }

    pub open spec fn col1(self) -> Vector3<S> {
        Vector3 { x: self.c1r0, y: self.c1r1, z: self.c1r2 }
    }

    pub open spec fn col2(self) -> Vector3<S> {
        Vector3 { x: self.c2r0, y: self.c2r1, z: self.c2r2 }
    }

    pub open spec fn row0(self) -> Vector3<S> {
        Vector3 { x: self.c0r0, y: self.c1r0, z: self.c2r0 }
    }

    pub open spec fn row1(self) -> Vector3<S> {
        Vector3 { x: self.c0r1, y: self.c1r1, z: self.c2r1 }
    }

    pub open spec fn row2(self) -> Vector3<S> {
        Vector3 { x: self.c0r2, y: self.c1r2, z: self.c2r2 }
    }

    /// The matrix with the given columns.
    pub open spec fn from_columns(c0: Vector3<S>, c1: Vector3<S>, c2: Vector3<S>) -> Self {
        Matrix3x3 {
            c0r0: c0.x,
            c0r1: c0.y,
            c0r2: c0.z,
            c1r0: c1.x,
            c1r1: c1.y,
            c1r2: c1.z,
            c2r0: c2.x,
            c2r1: c2.y,
            c2r2: c2.z,
        }
    }

    /// The identity matrix.
    pub open spec fn identity_value() -> Self {
        Matrix3x3 {
            c0r0: S::one_value(),
            c0r1: S::zero_value(),
            c0r2: S::zero_value(),
            c1r0: S::zero_value(),
            c1r1: S::one_value(),
            c1r2: S::zero_value(),
            c2r0: S::zero_value(),
            c2r1: S::zero_value(),
            c2r2: S::one_value(),
        }
    }

    /// The matrix mirrored in its diagonal.
    pub open spec fn transposed(self) -> Self {
        Self::from_columns(self.row0(), self.row1(), self.row2())
    }

    /// The product of the matrix with the column vector `v`: each coordinate
    /// is the dot product of a row with `v`.
    pub open spec fn apply(self, v: Vector3<S>) -> Vector3<S> {
        Vector3 {
            x: self.row0().dot_product(v),
            y: self.row1().dot_product(v),
            z: self.row2().dot_product(v),
        }
    }

    /// The matrix product: each column is `self` applied to a column of
    /// `other`.
    pub open spec fn times(self, other: Self) -> Self {
        Self::from_columns(
            self.apply(other.col0()),
            self.apply(other.col1()),
            self.apply(other.col2()),
        )
    }

    /// Every entry multiplied by `s` on the left.
    pub open spec fn scaled_by(self, s: S) -> Self {
        Matrix3x3 {
            c0r0: s.times(self.c0r0),
            c0r1: s.times(self.c0r1),
            c0r2: s.times(self.c0r2),
            c1r0: s.times(self.c1r0),
            c1r1: s.times(self.c1r1),
            c1r2: s.times(self.c1r2),
            c2r0: s.times(self.c2r0),
            c2r1: s.times(self.c2r1),
            c2r2: s.times(self.c2r2),
        }
    }

    /// The determinant: the triple product of the rows.
    pub open spec fn determinant_value(self) -> S {
        self.row0().dot_product(self.row1().cross_product(self.row2()))
    }

    /// The adjugate, the transpose of the matrix of cofactors: its columns
    /// are the cross products of the rows, taken in cyclic order.
    pub open spec fn adjugate(self) -> Self {
        Self::from_columns(
            self.row1().cross_product(self.row2()),
            self.row2().cross_product(self.row0()),
            self.row0().cross_product(self.row1()),
        )
    }

    /// The matrix with `d` in every place of the diagonal and zero elsewhere.
    pub open spec fn scalar_value(d: S) -> Self {
        Matrix3x3 {
            c0r0: d,
            c0r1: S::zero_value(),
            c0r2: S::zero_value(),
            c1r0: S::zero_value(),
            c1r1: d,
            c1r2: S::zero_value(),
            c2r0: S::zero_value(),
            c2r1: S::zero_value(),
            c2r2: d,
        }
    }

    /// The inverse by Cramer's rule: the adjugate times the reciprocal of the
    /// determinant, or nothing where the determinant compares equal to zero.
    pub open spec fn inverse_value(self) -> Option<Self> {
        if self.determinant_value().vanishes() {
            None
        } else {
            Some(self.adjugate().scaled_by(S::one_value().over(self.determinant_value())))
        }
    }

    /// Builds a matrix from its entries, column by column.
    pub fn new(
        c0r0: S,
        c0r1: S,
        c0r2: S,
        c1r0: S,
        c1r1: S,
        c1r2: S,
        c2r0: S,
        c2r1: S,
        c2r2: S,
    ) -> (r: Self)
        ensures
            r == (Matrix3x3 { c0r0, c0r1, c0r2, c1r0, c1r1, c1r2, c2r0, c2r1, c2r2 }),
    {
        Matrix3x3 { c0r0, c0r1, c0r2, c1r0, c1r1, c1r2, c2r0, c2r1, c2r2 }
    }

    pub fn identity() -> (r: Self)
        ensures
            r == Self::identity_value(),
    {
        Matrix3x3 {
            c0r0: S::one(),
            c0r1: S::zero(),
            c0r2: S::zero(),
            c1r0: S::zero(),
            c1r1: S::one(),
            c1r2: S::zero(),
            c2r0: S::zero(),
            c2r1: S::zero(),
            c2r2: S::one(),
        }
    }

    pub fn transpose(&self) -> (r: Self)
        ensures
            r == self.transposed(),
    {
        Matrix3x3 {
            c0r0: self.c0r0,
            c0r1: self.c1r0,
            c0r2: self.c2r0,
            c1r0: self.c0r1,
            c1r1: self.c1r1,
            c1r2: self.c2r1,
            c2r0: self.c0r2,
            c2r1: self.c1r2,
            c2r2: self.c2r2,
        }
    }

    pub fn mul_vector(&self, v: &Vector3<S>) -> (r: Vector3<S>)
        ensures
            r == self.apply(*v),
    {
        Vector3 {
            x: self.c0r0.mul(v.x).add(self.c1r0.mul(v.y)).add(self.c2r0.mul(v.z)),
            y: self.c0r1.mul(v.x).add(self.c1r1.mul(v.y)).add(self.c2r1.mul(v.z)),
            z: self.c0r2.mul(v.x).add(self.c1r2.mul(v.y)).add(self.c2r2.mul(v.z)),
        }
    }

    pub fn mul(&self, other: &Self) -> (r: Self)
        ensures
            r == self.times(*other),
    {
        let c0 = self.mul_vector(&Vector3 { x: other.c0r0, y: other.c0r1, z: other.c0r2 });
        let c1 = self.mul_vector(&Vector3 { x: other.c1r0, y: other.c1r1, z: other.c1r2 });
        let c2 = self.mul_vector(&Vector3 { x: other.c2r0, y: other.c2r1, z: other.c2r2 });
        Matrix3x3 {
            c0r0: c0.x,
            c0r1: c0.y,
            c0r2: c0.z,
            c1r0: c1.x,
            c1r1: c1.y,
            c1r2: c1.z,
            c2r0: c2.x,
            c2r1: c2.y,
            c2r2: c2.z,
        }
    }

    /// Multiplies every entry by `s`.
    pub fn scale(&self, s: S) -> (r: Self)
        ensures
            r == self.scaled_by(s),
    {
        Matrix3x3 {
            c0r0: s.mul(self.c0r0),
            c0r1: s.mul(self.c0r1),
            c0r2: s.mul(self.c0r2),
            c1r0: s.mul(self.c1r0),
            c1r1: s.mul(self.c1r1),
            c1r2: s.mul(self.c1r2),
            c2r0: s.mul(self.c2r0),
            c2r1: s.mul(self.c2r1),
            c2r2: s.mul(self.c2r2),
        }
    }

    fn rows(&self) -> (r: (Vector3<S>, Vector3<S>, Vector3<S>))
        ensures
            r == (self.row0(), self.row1(), self.row2()),
    {
        (
            Vector3 { x: self.c0r0, y: self.c1r0, z: self.c2r0 },
            Vector3 { x: self.c0r1, y: self.c1r1, z: self.c2r1 },
            Vector3 { x: self.c0r2, y: self.c1r2, z: self.c2r2 },
        )
    }

    pub fn determinant(&self) -> (r: S)
        ensures
            r == self.determinant_value(),
    {
        let (r0, r1, r2) = self.rows();
        r0.dot(&r1.cross(&r2))
    }

    /// Inverts the matrix. A matrix whose determinant compares equal to zero
    /// has no inverse.
    pub fn inverse(&self) -> (r: Option<Self>)
        ensures
            r == self.inverse_value(),
    {
        let det = self.determinant();
        if det.is_zero() {
            None
        } else {
            let (r0, r1, r2) = self.rows();
            let c0 = r1.cross(&r2);
            let c1 = r2.cross(&r0);
            let c2 = r0.cross(&r1);
            let adjugate = Matrix3x3 {
                c0r0: c0.x,
                c0r1: c0.y,
                c0r2: c0.z,
                c1r0: c1.x,
                c1r1: c1.y,
                c1r2: c1.z,
                c2r0: c2.x,
                c2r1: c2.y,
                c2r2: c2.z,
            };
            Some(adjugate.scale(S::one().div(det)))
        }
    }
}

impl<S: Scalar> Matrix4x4<S> {
    pub open spec fn col0(self) -> Vector4<S> {
        Vector4 { x: self.c0r0, y: self.c0r1, z: self.c0r2, w: self.c0r3 }
    }

    pub open spec fn col1(self) -> Vector4<S> {
        Vector4 { x: self.c1r0, y: self.c1r1, z: self.c1r2, w: self.c1r3 }
    }

    pub open spec fn col2(self) -> Vector4<S> {
        Vector4 { x: self.c2r0, y: self.c2r1, z: self.c2r2, w: self.c2r3 }
    }

    pub open spec fn col3(self) -> Vector4<S> {
        Vector4 { x: self.c3r0, y: self.c3r1, z: self.c3r2, w: self.c3r3 }
    }

    pub open spec fn row0(self) -> Vector4<S> {
        Vector4 { x: self.c0r0, y: self.c1r0, z: self.c2r0, w: self.c3r0 }
    }

    pub open spec fn row1(self) -> Vector4<S> {
        Vector4 { x: self.c0r1, y: self.c1r1, z: self.c2r1, w: self.c3r1 }
    }

    pub open spec fn row2(self) -> Vector4<S> {
        Vector4 { x: self.c0r2, y: self.c1r2, z: self.c2r2, w: self.c3r2 }
    }

    pub open spec fn row3(self) -> Vector4<S> {
        Vector4 { x: self.c0r3, y: self.c1r3, z: self.c2r3, w: self.c3r3 }
    }

    /// The matrix with the given columns.
    pub open spec fn from_columns(
        c0: Vector4<S>,
        c1: Vector4<S>,
        c2: Vector4<S>,
        c3: Vector4<S>,
    ) -> Self {
        Matrix4x4 {
            c0r0: c0.x,
            c0r1: c0.y,
            c0r2: c0.z,
            c0r3: c0.w,
            c1r0: c1.x,
            c1r1: c1.y,
            c1r2: c1.z,
            c1r3: c1.w,
            c2r0: c2.x,
            c2r1: c2.y,
            c2r2: c2.z,
            c2r3: c2.w,
            c3r0: c3.x,
            c3r1: c3.y,
            c3r2: c3.z,
            c3r3: c3.w,
        }
    }

    /// The identity matrix.
    pub open spec fn identity_value() -> Self {
        Matrix4x4 {
            c0r0: S::one_value(),
            c0r1: S::zero_value(),
            c0r2: S::zero_value(),
            c0r3: S::zero_value(),
            c1r0: S::zero_value(),
            c1r1: S::one_value(),
            c1r2: S::zero_value(),
            c1r3: S::zero_value(),
            c2r0: S::zero_value(),
            c2r1: S::zero_value(),
            c2r2: S::one_value(),
            c2r3: S::zero_value(),
            c3r0: S::zero_value(),
            c3r1: S::zero_value(),
            c3r2: S::zero_value(),
            c3r3: S::one_value(),
        }
    }

    /// The matrix mirrored in its diagonal.
    pub open spec fn transposed(self) -> Self {
        Self::from_columns(self.row0(), self.row1(), self.row2(), self.row3())
    }

    /// The product of the matrix with the column vector `v`: each coordinate
    /// is the dot product of a row with `v`.
    pub open spec fn apply(self, v: Vector4<S>) -> Vector4<S> {
        Vector4 {
            x: self.row0().dot_product(v),
            y: self.row1().dot_product(v),
            z: self.row2().dot_product(v),
            w: self.row3().dot_product(v),
        }
    }

    /// The matrix product: each column is `self` applied to a column of
    /// `other`.
    pub open spec fn times(self, other: Self) -> Self {
        Self::from_columns(
            self.apply(other.col0()),
            self.apply(other.col1()),
            self.apply(other.col2()),
            self.apply(other.col3()),
        )
    }

    /// Every entry multiplied by `s` on the left.
    pub open spec fn scaled_by(self, s: S) -> Self {
        Matrix4x4 {
            c0r0: s.times(self.c0r0),
            c0r1: s.times(self.c0r1),
            c0r2: s.times(self.c0r2),
            c0r3: s.times(self.c0r3),
            c1r0: s.times(self.c1r0),
            c1r1: s.times(self.c1r1),
            c1r2: s.times(self.c1r2),
            c1r3: s.times(self.c1r3),
            c2r0: s.times(self.c2r0),
            c2r1: s.times(self.c2r1),
            c2r2: s.times(self.c2r2),
            c2r3: s.times(self.c2r3),
            c3r0: s.times(self.c3r0),
            c3r1: s.times(self.c3r1),
            c3r2: s.times(self.c3r2),
            c3r3: s.times(self.c3r3),
        }
    }

    /// The matrix with `d` in every place of the diagonal and zero elsewhere.
    pub open spec fn scalar_value(d: S) -> Self {
        Matrix4x4 {
            c0r0: d,
            c0r1: S::zero_value(),
            c0r2: S::zero_value(),
            c0r3: S::zero_value(),
            c1r0: S::zero_value(),
            c1r1: d,
            c1r2: S::zero_value(),
            c1r3: S::zero_value(),
            c2r0: S::zero_value(),
            c2r1: S::zero_value(),
            c2r2: d,
            c2r3: S::zero_value(),
            c3r0: S::zero_value(),
            c3r1: S::zero_value(),
            c3r2: S::zero_value(),
            c3r3: d,
        }
    }

    /// The determinants of the six pairs of columns of the upper two rows,
    /// in the order (0,1), (0,2), (0,3), (1,2), (1,3), (2,3).
    pub open spec fn upper_minors(self) -> (S, S, S, S, S, S) {
        (
            self.c0r0.times(self.c1r1).minus(self.c0r1.times(self.c1r0)),
            self.c0r0.times(self.c2r1).minus(self.c0r1.times(self.c2r0)),
            self.c0r0.times(self.c3r1).minus(self.c0r1.times(self.c3r0)),
            self.c1r0.times(self.c2r1).minus(self.c1r1.times(self.c2r0)),
            self.c1r0.times(self.c3r1).minus(self.c1r1.times(self.c3r0)),
            self.c2r0.times(self.c3r1).minus(self.c2r1.times(self.c3r0)),
        )
    }

    /// The determinants of the six pairs of columns of the lower two rows,
    /// in the order (0,1), (0,2), (0,3), (1,2), (1,3), (2,3).
    pub open spec fn lower_minors(self) -> (S, S, S, S, S, S) {
        (
            self.c0r2.times(self.c1r3).minus(self.c0r3.times(self.c1r2)),
            self.c0r2.times(self.c2r3).minus(self.c0r3.times(self.c2r2)),
            self.c0r2.times(self.c3r3).minus(self.c0r3.times(self.c3r2)),
            self.c1r2.times(self.c2r3).minus(self.c1r3.times(self.c2r2)),
            self.c1r2.times(self.c3r3).minus(self.c1r3.times(self.c3r2)),
            self.c2r2.times(self.c3r3).minus(self.c2r3.times(self.c3r2)),
        )
    }

    /// The determinant, by Laplace expansion along the upper two rows.
    pub open spec fn determinant_value(self) -> S {
        let s = self.upper_minors();
        let c = self.lower_minors();
        s.0.times(c.5).minus(s.1.times(c.4)).plus(s.2.times(c.3)).plus(s.3.times(c.2)).minus(
            s.4.times(c.1),
        ).plus(s.5.times(c.0))
    }

    /// The adjugate: the transpose of the matrix of cofactors, each cofactor
    /// expanded over the minors of two rows.
    pub open spec fn adjugate(self) -> Self {
        let s = self.upper_minors();
        let c = self.lower_minors();
        Matrix4x4 {
            c0r0: self.c1r1.times(c.5).minus(self.c2r1.times(c.4)).plus(self.c3r1.times(c.3)),
            c0r1: self.c2r1.times(c.2).minus(self.c0r1.times(c.5)).minus(self.c3r1.times(c.1)),
            c0r2: self.c0r1.times(c.4).minus(self.c1r1.times(c.2)).plus(self.c3r1.times(c.0)),
            c0r3: self.c1r1.times(c.1).minus(self.c0r1.times(c.3)).minus(self.c2r1.times(c.0)),
            c1r0: self.c2r0.times(c.4).minus(self.c1r0.times(c.5)).minus(self.c3r0.times(c.3)),
            c1r1: self.c0r0.times(c.5).minus(self.c2r0.times(c.2)).plus(self.c3r0.times(c.1)),
            c1r2: self.c1r0.times(c.2).minus(self.c0r0.times(c.4)).minus(self.c3r0.times(c.0)),
            c1r3: self.c0r0.times(c.3).minus(self.c1r0.times(c.1)).plus(self.c2r0.times(c.0)),
            c2r0: self.c1r3.times(s.5).minus(self.c2r3.times(s.4)).plus(self.c3r3.times(s.3)),
            c2r1: self.c2r3.times(s.2).minus(self.c0r3.times(s.5)).minus(self.c3r3.times(s.1)),
            c2r2: self.c0r3.times(s.4).minus(self.c1r3.times(s.2)).plus(self.c3r3.times(s.0)),
            c2r3: self.c1r3.times(s.1).minus(self.c0r3.times(s.3)).minus(self.c2r3.times(s.0)),
            c3r0: self.c2r2.times(s.4).minus(self.c1r2.times(s.5)).minus(self.c3r2.times(s.3)),
            c3r1: self.c0r2.times(s.5).minus(self.c2r2.times(s.2)).plus(self.c3r2.times(s.1)),
            c3r2: self.c1r2.times(s.2).minus(self.c0r2.times(s.4)).minus(self.c3r2.times(s.0)),
            c3r3: self.c0r2.times(s.3).minus(self.c1r2.times(s.1)).plus(self.c2r2.times(s.0)),
        }
    }

    /// The inverse by Cramer's rule: the adjugate times the reciprocal of the
    /// determinant, or nothing where the determinant compares equal to zero.
    pub open spec fn inverse_value(self) -> Option<Self> {
        if self.determinant_value().vanishes() {
            None
        } else {
            Some(self.adjugate().scaled_by(S::one_value().over(self.determinant_value())))
        }
    }

    /// Builds a matrix from its entries, column by column.
    pub fn new(
        c0r0: S,
        c0r1: S,
        c0r2: S,
        c0r3: S,
        c1r0: S,
        c1r1: S,
        c1r2: S,
        c1r3: S,
        c2r0: S,
        c2r1: S,
        c2r2: S,
        c2r3: S,
        c3r0: S,
        c3r1: S,
        c3r2: S,
        c3r3: S,
    ) -> (r: Self)
        ensures
            r == (Matrix4x4 {
                c0r0,
                c0r1,
                c0r2,
                c0r3,
                c1r0,
                c1r1,
                c1r2,
                c1r3,
                c2r0,
                c2r1,
                c2r2,
                c2r3,
                c3r0,
                c3r1,
                c3r2,
                c3r3,
            }),
    {
        Matrix4x4 {
            c0r0,
            c0r1,
            c0r2,
            c0r3,
            c1r0,
            c1r1,
            c1r2,
            c1r3,
            c2r0,
            c2r1,
            c2r2,
            c2r3,
            c3r0,
            c3r1,
            c3r2,
            c3r3,
        }
    }

    pub fn identity() -> (r: Self)
        ensures
            r == Self::identity_value(),
    {
        Matrix4x4 {
            c0r0: S::one(),
            c0r1: S::zero(),
            c0r2: S::zero(),
            c0r3: S::zero(),
            c1r0: S::zero(),
            c1r1: S::one(),
            c1r2: S::zero(),
            c1r3: S::zero(),
            c2r0: S::zero(),
            c2r1: S::zero(),
            c2r2: S::one(),
            c2r3: S::zero(),
            c3r0: S::zero(),
            c3r1: S::zero(),
            c3r2: S::zero(),
            c3r3: S::one(),
        }
    }

    pub fn transpose(&self) -> (r: Self)
        ensures
            r == self.transposed(),
    {
        Matrix4x4 {
            c0r0: self.c0r0,
            c0r1: self.c1r0,
            c0r2: self.c2r0,
            c0r3: self.c3r0,
            c1r0: self.c0r1,
            c1r1: self.c1r1,
            c1r2: self.c2r1,
            c1r3: self.c3r1,
            c2r0: self.c0r2,
            c2r1: self.c1r2,
            c2r2: self.c2r2,
            c2r3: self.c3r2,
            c3r0: self.c0r3,
            c3r1: self.c1r3,
            c3r2: self.c2r3,
            c3r3: self.c3r3,
        }
    }

    pub fn mul_vector(&self, v: &Vector4<S>) -> (r: Vector4<S>)
        ensures
            r == self.apply(*v),
    {
        Vector4 {
            x: self.c0r0.mul(v.x).add(self.c1r0.mul(v.y)).add(self.c2r0.mul(v.z)).add(
                self.c3r0.mul(v.w),
            ),
            y: self.c0r1.mul(v.x).add(self.c1r1.mul(v.y)).add(self.c2r1.mul(v.z)).add(
                self.c3r1.mul(v.w),
            ),
            z: self.c0r2.mul(v.x).add(self.c1r2.mul(v.y)).add(self.c2r2.mul(v.z)).add(
                self.c3r2.mul(v.w),
            ),
            w: self.c0r3.mul(v.x).add(self.c1r3.mul(v.y)).add(self.c2r3.mul(v.z)).add(
                self.c3r3.mul(v.w),
            ),
        }
    }

    pub fn mul(&self, other: &Self) -> (r: Self)
        ensures
            r == self.times(*other),
    {
        let c0 = self.mul_vector(
            &Vector4 { x: other.c0r0, y: other.c0r1, z: other.c0r2, w: other.c0r3 },
        );
        let c1 = self.mul_vector(
            &Vector4 { x: other.c1r0, y: other.c1r1, z: other.c1r2, w: other.c1r3 },
        );
        let c2 = self.mul_vector(
            &Vector4 { x: other.c2r0, y: other.c2r1, z: other.c2r2, w: other.c2r3 },
        );
        let c3 = self.mul_vector(
            &Vector4 { x: other.c3r0, y: other.c3r1, z: other.c3r2, w: other.c3r3 },
        );
        Matrix4x4 {
            c0r0: c0.x,
            c0r1: c0.y,
            c0r2: c0.z,
            c0r3: c0.w,
            c1r0: c1.x,
            c1r1: c1.y,
            c1r2: c1.z,
            c1r3: c1.w,
            c2r0: c2.x,
            c2r1: c2.y,
            c2r2: c2.z,
            c2r3: c2.w,
            c3r0: c3.x,
            c3r1: c3.y,
            c3r2: c3.z,
            c3r3: c3.w,
        }
    }

    /// Multiplies every entry by `s`.
    pub fn scale(&self, s: S) -> (r: Self)
        ensures
            r == self.scaled_by(s),
    {
        Matrix4x4 {
            c0r0: s.mul(self.c0r0),
            c0r1: s.mul(self.c0r1),
            c0r2: s.mul(self.c0r2),
            c0r3: s.mul(self.c0r3),
            c1r0: s.mul(self.c1r0),
            c1r1: s.mul(self.c1r1),
            c1r2: s.mul(self.c1r2),
            c1r3: s.mul(self.c1r3),
            c2r0: s.mul(self.c2r0),
            c2r1: s.mul(self.c2r1),
            c2r2: s.mul(self.c2r2),
            c2r3: s.mul(self.c2r3),
            c3r0: s.mul(self.c3r0),
            c3r1: s.mul(self.c3r1),
            c3r2: s.mul(self.c3r2),
            c3r3: s.mul(self.c3r3),
        }
    }

    fn upper_minor_values(&self) -> (r: (S, S, S, S, S, S))
        ensures
            r == self.upper_minors(),
    {
        (
            self.c0r0.mul(self.c1r1).sub(self.c0r1.mul(self.c1r0)),
            self.c0r0.mul(self.c2r1).sub(self.c0r1.mul(self.c2r0)),
            self.c0r0.mul(self.c3r1).sub(self.c0r1.mul(self.c3r0)),
            self.c1r0.mul(self.c2r1).sub(self.c1r1.mul(self.c2r0)),
            self.c1r0.mul(self.c3r1).sub(self.c1r1.mul(self.c3r0)),
            self.c2r0.mul(self.c3r1).sub(self.c2r1.mul(self.c3r0)),
        )
    }

    fn lower_minor_values(&self) -> (r: (S, S, S, S, S, S))
        ensures
            r == self.lower_minors(),
    {
        (
            self.c0r2.mul(self.c1r3).sub(self.c0r3.mul(self.c1r2)),
            self.c0r2.mul(self.c2r3).sub(self.c0r3.mul(self.c2r2)),
            self.c0r2.mul(self.c3r3).sub(self.c0r3.mul(self.c3r2)),
            self.c1r2.mul(self.c2r3).sub(self.c1r3.mul(self.c2r2)),
            self.c1r2.mul(self.c3r3).sub(self.c1r3.mul(self.c3r2)),
            self.c2r2.mul(self.c3r3).sub(self.c2r3.mul(self.c3r2)),
        )
    }

    pub fn determinant(&self) -> (r: S)
        ensures
            r == self.determinant_value(),
    {
        let s = self.upper_minor_values();
        let c = self.lower_minor_values();
        s.0.mul(c.5).sub(s.1.mul(c.4)).add(s.2.mul(c.3)).add(s.3.mul(c.2)).sub(s.4.mul(c.1)).add(
            s.5.mul(c.0),
        )
    }

    /// Inverts the matrix. A matrix whose determinant compares equal to zero
    /// has no inverse.
    pub fn inverse(&self) -> (r: Option<Self>)
        ensures
            r == self.inverse_value(),
    {
        let det = self.determinant();
        if det.is_zero() {
            None
        } else {
            let s = self.upper_minor_values();
            let c = self.lower_minor_values();
            let adjugate = Matrix4x4 {
                c0r0: self.c1r1.mul(c.5).sub(self.c2r1.mul(c.4)).add(self.c3r1.mul(c.3)),
                c0r1: self.c2r1.mul(c.2).sub(self.c0r1.mul(c.5)).sub(self.c3r1.mul(c.1)),
                c0r2: self.c0r1.mul(c.4).sub(self.c1r1.mul(c.2)).add(self.c3r1.mul(c.0)),
                c0r3: self.c1r1.mul(c.1).sub(self.c0r1.mul(c.3)).sub(self.c2r1.mul(c.0)),
                c1r0: self.c2r0.mul(c.4).sub(self.c1r0.mul(c.5)).sub(self.c3r0.mul(c.3)),
                c1r1: self.c0r0.mul(c.5).sub(self.c2r0.mul(c.2)).add(self.c3r0.mul(c.1)),
                c1r2: self.c1r0.mul(c.2).sub(self.c0r0.mul(c.4)).sub(self.c3r0.mul(c.0)),
                c1r3: self.c0r0.mul(c.3).sub(self.c1r0.mul(c.1)).add(self.c2r0.mul(c.0)),
                c2r0: self.c1r3.mul(s.5).sub(self.c2r3.mul(s.4)).add(self.c3r3.mul(s.3)),
                c2r1: self.c2r3.mul(s.2).sub(self.c0r3.mul(s.5)).sub(self.c3r3.mul(s.1)),
                c2r2: self.c0r3.mul(s.4).sub(self.c1r3.mul(s.2)).add(self.c3r3.mul(s.0)),
                c2r3: self.c1r3.mul(s.1).sub(self.c0r3.mul(s.3)).sub(self.c2r3.mul(s.0)),
                c3r0: self.c2r2.mul(s.4).sub(self.c1r2.mul(s.5)).sub(self.c3r2.mul(s.3)),
                c3r1: self.c0r2.mul(s.5).sub(self.c2r2.mul(s.2)).add(self.c3r2.mul(s.1)),
                c3r2: self.c1r2.mul(s.2).sub(self.c0r2.mul(s.4)).sub(self.c3r2.mul(s.0)),
                c3r3: self.c0r2.mul(s.3).sub(self.c1r2.mul(s.1)).add(self.c2r2.mul(s.0)),
            };
            Some(adjugate.scale(S::one().div(det)))
        }
    }
}

} // verus!
