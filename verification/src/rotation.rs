//! Rotations about the origin, held as orthogonal matrices.

use crate::algebra::{
    lemma_apply2_identity, lemma_apply2_times, lemma_apply3_identity, lemma_apply3_times,
    lemma_cancel_factor, lemma_dot3_commutes, lemma_negated_plus, lemma_negated_times,
    lemma_negated_twice, lemma_negated_zero, lemma_times2_associates, lemma_times2_identity,
    lemma_times3_associates, lemma_times3_identity, lemma_times_negated, lemma_times_zero,
    lemma_transposed2_times, lemma_transposed3_times,
};
use crate::angle::Radians;
use crate::determinant::{
    lemma_determinant2_times, lemma_determinant3_times, lemma_determinant3_transposes,
    lemma_lagrange3, lemma_orthogonal2_transpose_is_inverse,
    lemma_orthogonal3_transpose_is_inverse, lemma_swap_factors, lemma_triple_cycles,
    lemma_triple_repeats,
};
use crate::matrix::{Matrix2x2, Matrix3x3};
use crate::point::{Point2, Point3};
use crate::scalar::{Field, Scalar, ScalarFloat, ScalarSigned};
use crate::unit::Unit;
use crate::vector::{Vector2, Vector3};
use vstd::prelude::*;

verus! {

/// A rotation of the plane about the origin.
#[derive(Clone, Copy, Debug, PartialEq)]
pub struct Rotation2<S> {
    pub matrix: Matrix2x2<S>,
}

/// A rotation of space about an axis through the origin.
#[derive(Clone, Copy, Debug, PartialEq)]
pub struct Rotation3<S> {
    pub matrix: Matrix3x3<S>,
}

impl<S: Scalar> Rotation2<S> {
    /// The rotation that moves nothing.
    pub open spec fn identity_value() -> Self {
        Rotation2 { matrix: Matrix2x2::identity_value() }
    }

    /// The rotation with the transposed matrix, which undoes `self` when
    /// `self` is orthogonal.
    pub open spec fn inverted(self) -> Self {
        Rotation2 { matrix: self.matrix.transposed() }
    }

    /// The composition that applies `other` first and `self` second.
    pub open spec fn times(self, other: Self) -> Self {
        Rotation2 { matrix: self.matrix.times(other.matrix) }
    }

    /// The image of the vector `v`.
    pub open spec fn rotate(self, v: Vector2<S>) -> Vector2<S> {
        self.matrix.apply(v)
    }

    /// The image of the point `p`.
    pub open spec fn rotate_at(self, p: Point2<S>) -> Point2<S> {
        Point2::at(self.matrix.apply(p.position()))
    }

    /// The matrix is orthogonal: its columns are orthonormal, which is to
    /// say that the transpose times the matrix is the identity.
    pub open spec fn is_orthogonal(self) -> bool {
        self.matrix.transposed().times(self.matrix) == Matrix2x2::<S>::identity_value()
    }

    /// The matrix is that of a rotation: it is orthogonal, and its
    /// determinant is one.
    pub open spec fn is_rotation(self) -> bool {
        &&& self.is_orthogonal()
        &&& self.matrix.determinant_value() == S::one_value()
    }

    /// Wraps a matrix that the caller knows to be a rotation.
    pub fn from_matrix_unchecked(matrix: Matrix2x2<S>) -> (r: Self)
        ensures
            r.matrix == matrix,
    {
        Rotation2 { matrix }
    }

    pub fn identity() -> (r: Self)
        ensures
            r == Self::identity_value(),
    {
        Rotation2 { matrix: Matrix2x2::identity() }
    }

    /// The matrix of the rotation.
    pub fn matrix(&self) -> (r: &Matrix2x2<S>)
        ensures
            *r == self.matrix,
    {
        &self.matrix
    }

    /// The inverse rotation, computed as the transpose.
    pub fn inverse(&self) -> (r: Self)
        ensures
            r == self.inverted(),
    {
        Rotation2 { matrix: self.matrix.transpose() }
    }

    /// Replaces the rotation by its inverse.
    pub fn inverse_mut(&mut self)
        ensures
            *final(self) == old(self).inverted(),
    {
        self.matrix = self.matrix.transpose();
    }

    /// Composes two rotations: the result applies `other` first.
    pub fn mul(&self, other: &Self) -> (r: Self)
        ensures
            r == self.times(*other),
    {
        Rotation2 { matrix: self.matrix.mul(&other.matrix) }
    }

    pub fn rotate_vector(&self, vector: &Vector2<S>) -> (r: Vector2<S>)
        ensures
            r == self.rotate(*vector),
    {
        self.matrix.mul_vector(vector)
    }

    pub fn rotate_point(&self, point: &Point2<S>) -> (r: Point2<S>)
        ensures
            r == self.rotate_at(*point),
    {
        let v = self.matrix.mul_vector(&point.to_vector());
        Point2::from_vector(&v)
    }

    /// Applies the inverse rotation to a vector.
    pub fn inverse_rotate_vector(&self, vector: &Vector2<S>) -> (r: Vector2<S>)
        ensures
            r == self.inverted().rotate(*vector),
    {
        self.matrix.transpose().mul_vector(vector)
    }

    /// Applies the inverse rotation to a point.
    pub fn inverse_rotate_point(&self, point: &Point2<S>) -> (r: Point2<S>)
        ensures
            r == self.inverted().rotate_at(*point),
    {
        let v = self.matrix.transpose().mul_vector(&point.to_vector());
        Point2::from_vector(&v)
    }
}

impl<S: ScalarSigned> Rotation2<S> {
    /// The rotation matrix with the given cosine and sine.
    pub open spec fn from_cos_sin(cos: S, sin: S) -> Self {
        Rotation2 { matrix: Matrix2x2 { c0r0: cos, c0r1: sin, c1r0: sin.negated(), c1r1: cos } }
    }
}

impl<S: ScalarFloat> Rotation2<S> {
    /// The counterclockwise rotation by `angle`.
    pub open spec fn from_angle_value(angle: Radians<S>) -> Self {
        Self::from_cos_sin(angle.0.cosine(), angle.0.sine())
    }

    /// Builds the counterclockwise rotation by `angle`.
    pub fn from_angle(angle: Radians<S>) -> (r: Self)
        ensures
            r == Self::from_angle_value(angle),
    {
        let cos = angle.0.cos();
        let sin = angle.0.sin();
        Rotation2 { matrix: Matrix2x2 { c0r0: cos, c0r1: sin, c1r0: sin.neg(), c1r1: cos } }
    }
}

impl<S: Scalar> Rotation3<S> {
    /// The rotation that moves nothing.
    pub open spec fn identity_value() -> Self {
        Rotation3 { matrix: Matrix3x3::identity_value() }
    }

    /// The rotation with the transposed matrix, which undoes `self` when
    /// `self` is orthogonal.
    pub open spec fn inverted(self) -> Self {
        Rotation3 { matrix: self.matrix.transposed() }
    }

    /// The composition that applies `other` first and `self` second.
    pub open spec fn times(self, other: Self) -> Self {
        Rotation3 { matrix: self.matrix.times(other.matrix) }
    }

    /// The image of the vector `v`.
    pub open spec fn rotate(self, v: Vector3<S>) -> Vector3<S> {
        self.matrix.apply(v)
    }

    /// The image of the point `p`.
    pub open spec fn rotate_at(self, p: Point3<S>) -> Point3<S> {
        Point3::at(self.matrix.apply(p.position()))
    }

    /// The matrix is orthogonal: its columns are orthonormal, which is to
    /// say that the transpose times the matrix is the identity.
    pub open spec fn is_orthogonal(self) -> bool {
        self.matrix.transposed().times(self.matrix) == Matrix3x3::<S>::identity_value()
    }

    /// The matrix is that of a rotation: it is orthogonal, and its
    /// determinant is one.
    pub open spec fn is_rotation(self) -> bool {
        &&& self.is_orthogonal()
        &&& self.matrix.determinant_value() == S::one_value()
    }

    /// The matrix whose rows are `x`, `y` and `z`: it sends each of the three
    /// vectors, when they are orthonormal, to a coordinate axis.
    pub open spec fn from_rows(x: Vector3<S>, y: Vector3<S>, z: Vector3<S>) -> Self {
        Rotation3 { matrix: Matrix3x3::from_columns(x, y, z).transposed() }
    }

    /// The matrix whose columns are `x`, `y` and `z`: it sends the coordinate
    /// axes to the three vectors.
    pub open spec fn from_columns(x: Vector3<S>, y: Vector3<S>, z: Vector3<S>) -> Self {
        Rotation3 { matrix: Matrix3x3::from_columns(x, y, z) }
    }

    /// Wraps a matrix that the caller knows to be a rotation.
    pub fn from_matrix_unchecked(matrix: Matrix3x3<S>) -> (r: Self)
        ensures
            r.matrix == matrix,
    {
        Rotation3 { matrix }
    }

    pub fn identity() -> (r: Self)
        ensures
            r == Self::identity_value(),
    {
        Rotation3 { matrix: Matrix3x3::identity() }
    }

    /// The matrix of the rotation.
    pub fn matrix(&self) -> (r: &Matrix3x3<S>)
        ensures
            *r == self.matrix,
    {
        &self.matrix
    }

    /// The inverse rotation, computed as the transpose.
    pub fn inverse(&self) -> (r: Self)
        ensures
            r == self.inverted(),
    {
        Rotation3 { matrix: self.matrix.transpose() }
    }

    /// Replaces the rotation by its inverse.
    pub fn inverse_mut(&mut self)
        ensures
            *final(self) == old(self).inverted(),
    {
        self.matrix = self.matrix.transpose();
    }

    /// Composes two rotations: the result applies `other` first.
    pub fn mul(&self, other: &Self) -> (r: Self)
        ensures
            r == self.times(*other),
    {
        Rotation3 { matrix: self.matrix.mul(&other.matrix) }
    }

    pub fn rotate_vector(&self, vector: &Vector3<S>) -> (r: Vector3<S>)
        ensures
            r == self.rotate(*vector),
    {
        self.matrix.mul_vector(vector)
    }

    pub fn rotate_point(&self, point: &Point3<S>) -> (r: Point3<S>)
        ensures
            r == self.rotate_at(*point),
    {
        let v = self.matrix.mul_vector(&point.to_vector());
        Point3::from_vector(&v)
    }

    /// Applies the inverse rotation to a vector.
    pub fn inverse_rotate_vector(&self, vector: &Vector3<S>) -> (r: Vector3<S>)
        ensures
            r == self.inverted().rotate(*vector),
    {
        self.matrix.transpose().mul_vector(vector)
    }

    /// Applies the inverse rotation to a point.
    pub fn inverse_rotate_point(&self, point: &Point3<S>) -> (r: Point3<S>)
        ensures
            r == self.inverted().rotate_at(*point),
    {
        let v = self.matrix.transpose().mul_vector(&point.to_vector());
        Point3::from_vector(&v)
    }
}

impl<S: ScalarSigned> Rotation3<S> {
    /// Rodrigues' formula: the rotation about the axis `(x, y, z)` whose angle
    /// has the given cosine and sine.
    pub open spec fn rodrigues(axis: Vector3<S>, cos: S, sin: S) -> Self {
        let t = S::one_value().minus(cos);
        let (x, y, z) = (axis.x, axis.y, axis.z);
        Rotation3 {
            matrix: Matrix3x3 {
                c0r0: t.times(x).times(x).plus(cos),
                c0r1: t.times(x).times(y).plus(sin.times(z)),
                c0r2: t.times(x).times(z).minus(sin.times(y)),
                c1r0: t.times(x).times(y).minus(sin.times(z)),
                c1r1: t.times(y).times(y).plus(cos),
                c1r2: t.times(y).times(z).plus(sin.times(x)),
                c2r0: t.times(x).times(z).plus(sin.times(y)),
                c2r1: t.times(y).times(z).minus(sin.times(x)),
                c2r2: t.times(z).times(z).plus(cos),
            },
        }
    }
}

impl<S: ScalarFloat> Rotation3<S> {
    /// The rotation by `angle` about `axis`, counterclockwise when seen from
    /// the tip of the axis.
    pub open spec fn from_axis_angle_value(axis: Unit<Vector3<S>>, angle: Radians<S>) -> Self {
        Self::rodrigues(axis.value, angle.0.cosine(), angle.0.sine())
    }

    /// The view rotation that sends `direction` to the positive z-axis, with
    /// `up` in the half-plane of the positive y-axis.
    pub open spec fn look_to_lh_value(direction: Vector3<S>, up: Vector3<S>) -> Self {
        let z = direction.normalized();
        let x = up.cross_product(z).normalized();
        let y = z.cross_product(x);
        Self::from_rows(x, y, z)
    }

    /// The view rotation that sends `direction` to the negative z-axis, with
    /// `up` in the half-plane of the positive y-axis.
    pub open spec fn look_to_rh_value(direction: Vector3<S>, up: Vector3<S>) -> Self {
        let z = direction.normalized().negated();
        let x = up.cross_product(z).normalized();
        let y = z.cross_product(x);
        Self::from_rows(x, y, z)
    }

    /// The rotation that sends the positive z-axis to `direction`: the
    /// inverse of the left-handed view rotation.
    pub open spec fn look_to_lh_inv_value(direction: Vector3<S>, up: Vector3<S>) -> Self {
        let z = direction.normalized();
        let x = up.cross_product(z).normalized();
        let y = z.cross_product(x);
        Self::from_columns(x, y, z)
    }

    /// The rotation that sends the negative z-axis to `direction`: the
    /// inverse of the right-handed view rotation.
    pub open spec fn look_to_rh_inv_value(direction: Vector3<S>, up: Vector3<S>) -> Self {
        let z = direction.normalized().negated();
        let x = up.cross_product(z).normalized();
        let y = z.cross_product(x);
        Self::from_columns(x, y, z)
    }

    /// Builds the rotation by `angle` about `axis` with Rodrigues' formula.
    pub fn from_axis_angle(axis: &Unit<Vector3<S>>, angle: Radians<S>) -> (r: Self)
        ensures
            r == Self::from_axis_angle_value(*axis, angle),
    {
        let cos = angle.0.cos();
        let sin = angle.0.sin();
        let t = S::one().sub(cos);
        let x = axis.value.x;
        let y = axis.value.y;
        let z = axis.value.z;
        Rotation3 {
            matrix: Matrix3x3 {
                c0r0: t.mul(x).mul(x).add(cos),
                c0r1: t.mul(x).mul(y).add(sin.mul(z)),
                c0r2: t.mul(x).mul(z).sub(sin.mul(y)),
                c1r0: t.mul(x).mul(y).sub(sin.mul(z)),
                c1r1: t.mul(y).mul(y).add(cos),
                c1r2: t.mul(y).mul(z).add(sin.mul(x)),
                c2r0: t.mul(x).mul(z).add(sin.mul(y)),
                c2r1: t.mul(y).mul(z).sub(sin.mul(x)),
                c2r2: t.mul(z).mul(z).add(cos),
            },
        }
    }

    /// Builds the left-handed view rotation. `direction` and `up` must not be
    /// parallel: for parallel vectors the axes are whatever the scalar's
    /// division by zero gives.
    pub fn look_to_lh(direction: &Vector3<S>, up: &Vector3<S>) -> (r: Self)
        ensures
            r == Self::look_to_lh_value(*direction, *up),
    {
        let z = direction.normalize();
        let x = up.cross(&z).normalize();
        let y = z.cross(&x);
        Rotation3 { matrix: rows_matrix(&x, &y, &z) }
    }

    /// Builds the right-handed view rotation. `direction` and `up` must not
    /// be parallel.
    pub fn look_to_rh(direction: &Vector3<S>, up: &Vector3<S>) -> (r: Self)
        ensures
            r == Self::look_to_rh_value(*direction, *up),
    {
        let z = direction.normalize().neg();
        let x = up.cross(&z).normalize();
        let y = z.cross(&x);
        Rotation3 { matrix: rows_matrix(&x, &y, &z) }
    }

    /// Builds the inverse of the left-handed view rotation. `direction` and
    /// `up` must not be parallel.
    pub fn look_to_lh_inv(direction: &Vector3<S>, up: &Vector3<S>) -> (r: Self)
        ensures
            r == Self::look_to_lh_inv_value(*direction, *up),
    {
        let z = direction.normalize();
        let x = up.cross(&z).normalize();
        let y = z.cross(&x);
        Rotation3 { matrix: columns_matrix(&x, &y, &z) }
    }

    /// Builds the inverse of the right-handed view rotation. `direction` and
    /// `up` must not be parallel.
    pub fn look_to_rh_inv(direction: &Vector3<S>, up: &Vector3<S>) -> (r: Self)
        ensures
            r == Self::look_to_rh_inv_value(*direction, *up),
    {
        let z = direction.normalize().neg();
        let x = up.cross(&z).normalize();
        let y = z.cross(&x);
        Rotation3 { matrix: columns_matrix(&x, &y, &z) }
    }
}

fn rows_matrix<S: Scalar>(x: &Vector3<S>, y: &Vector3<S>, z: &Vector3<S>) -> (r: Matrix3x3<S>)
    ensures
        r == Matrix3x3::from_columns(*x, *y, *z).transposed(),
{
    Matrix3x3 {
        c0r0: x.x,
        c0r1: y.x,
        c0r2: z.x,
        c1r0: x.y,
        c1r1: y.y,
        c1r2: z.y,
        c2r0: x.z,
        c2r1: y.z,
        c2r2: z.z,
    }
}

fn columns_matrix<S: Scalar>(x: &Vector3<S>, y: &Vector3<S>, z: &Vector3<S>) -> (r: Matrix3x3<S>)
    ensures
        r == Matrix3x3::from_columns(*x, *y, *z),
{
    Matrix3x3 {
        c0r0: x.x,
        c0r1: x.y,
        c0r2: x.z,
        c1r0: y.x,
        c1r1: y.y,
        c1r2: y.z,
        c2r0: z.x,
        c2r1: z.y,
        c2r2: z.z,
    }
}

/// A rotation composed with its inverse, in either order, is the identity:
/// the transpose of a matrix with orthonormal columns is its inverse on both
/// sides.
pub proof fn lemma_rotation2_inverse_cancels<S: Field>(r: Rotation2<S>)
    requires
        r.is_orthogonal(),
    ensures
        r.inverted().times(r) == Rotation2::<S>::identity_value(),
        r.times(r.inverted()) == Rotation2::<S>::identity_value(),
{
    lemma_orthogonal2_transpose_is_inverse(r.matrix);
}

/// The identity is a rotation.
pub proof fn lemma_rotation2_identity_is_rotation<S: Field>()
    ensures
        Rotation2::<S>::identity_value().is_rotation(),
{
    let (zero, one) = (S::zero_value(), S::one_value());
    lemma_times2_identity(Matrix2x2::<S>::identity_value());
    S::law_times_one(one);
    lemma_times_zero(zero);
    S::law_minus(one, zero);
    lemma_negated_zero::<S>();
    S::law_plus_zero(one);
}

/// The inverse of an orthogonal rotation is orthogonal, and the inverse of a
/// rotation is a rotation.
pub proof fn lemma_rotation2_inverse_is_rotation<S: Field>(r: Rotation2<S>)
    requires
        r.is_orthogonal(),
    ensures
        r.inverted().is_orthogonal(),
        r.is_rotation() ==> r.inverted().is_rotation(),
{
    lemma_orthogonal2_transpose_is_inverse(r.matrix);
    S::law_times_commutes(r.matrix.c1r0, r.matrix.c0r1);
}

/// The composition of two orthogonal rotations is orthogonal.
pub proof fn lemma_rotation2_product_is_orthogonal<S: Field>(a: Rotation2<S>, b: Rotation2<S>)
    requires
        a.is_orthogonal(),
        b.is_orthogonal(),
    ensures
        a.times(b).is_orthogonal(),
{
    let (m, n) = (a.matrix, b.matrix);
    let (mt, nt) = (m.transposed(), n.transposed());
    // (n' m')(m n) = n' ((m' m) n) = n' n
    lemma_transposed2_times(m, n);
    lemma_times2_associates(nt, mt, m.times(n));
    lemma_times2_associates(mt, m, n);
    lemma_times2_identity(n);
}

/// An orthogonal rotation followed by its inverse fixes every vector, and so
/// does the inverse followed by the rotation.
pub proof fn lemma_rotation2_inverse_undoes<S: Field>(r: Rotation2<S>, v: Vector2<S>)
    requires
        r.is_orthogonal(),
    ensures
        r.inverted().rotate(r.rotate(v)) == v,
        r.rotate(r.inverted().rotate(v)) == v,
{
    lemma_orthogonal2_transpose_is_inverse(r.matrix);
    lemma_apply2_times(r.matrix.transposed(), r.matrix, v);
    lemma_apply2_times(r.matrix, r.matrix.transposed(), v);
    lemma_apply2_identity(v);
}

/// A rotation composed with its inverse, in either order, is the identity:
/// the transpose of a matrix with orthonormal columns is its inverse on both
/// sides.
pub proof fn lemma_rotation3_inverse_cancels<S: Field>(r: Rotation3<S>)
    requires
        r.is_orthogonal(),
    ensures
        r.inverted().times(r) == Rotation3::<S>::identity_value(),
        r.times(r.inverted()) == Rotation3::<S>::identity_value(),
{
    lemma_orthogonal3_transpose_is_inverse(r.matrix);
}

/// The identity is a rotation.
pub proof fn lemma_rotation3_identity_is_rotation<S: Field>()
    ensures
        Rotation3::<S>::identity_value().is_rotation(),
{
    let (zero, one) = (S::zero_value(), S::one_value());
    lemma_times3_identity(Matrix3x3::<S>::identity_value());
    S::law_times_one(one);
    lemma_times_zero(zero);
    S::law_minus(one, zero);
    lemma_negated_zero::<S>();
    S::law_plus_zero(one);
    S::law_times_one(zero);
    lemma_times_zero(one);
    S::law_minus(zero, zero);
    S::law_plus_zero(zero);
}

/// The inverse of an orthogonal rotation is orthogonal, and the inverse of a
/// rotation is a rotation.
pub proof fn lemma_rotation3_inverse_is_rotation<S: Field>(r: Rotation3<S>)
    requires
        r.is_orthogonal(),
    ensures
        r.inverted().is_orthogonal(),
        r.is_rotation() ==> r.inverted().is_rotation(),
{
    lemma_orthogonal3_transpose_is_inverse(r.matrix);
    lemma_determinant3_transposes(r.matrix);
}

/// The composition of two orthogonal rotations is orthogonal.
pub proof fn lemma_rotation3_product_is_orthogonal<S: Field>(a: Rotation3<S>, b: Rotation3<S>)
    requires
        a.is_orthogonal(),
        b.is_orthogonal(),
    ensures
        a.times(b).is_orthogonal(),
{
    let (m, n) = (a.matrix, b.matrix);
    let (mt, nt) = (m.transposed(), n.transposed());
    // (n' m')(m n) = n' ((m' m) n) = n' n
    lemma_transposed3_times(m, n);
    lemma_times3_associates(nt, mt, m.times(n));
    lemma_times3_associates(mt, m, n);
    lemma_times3_identity(n);
}

/// An orthogonal rotation followed by its inverse fixes every vector, and so
/// does the inverse followed by the rotation.
pub proof fn lemma_rotation3_inverse_undoes<S: Field>(r: Rotation3<S>, v: Vector3<S>)
    requires
        r.is_orthogonal(),
    ensures
        r.inverted().rotate(r.rotate(v)) == v,
        r.rotate(r.inverted().rotate(v)) == v,
{
    lemma_orthogonal3_transpose_is_inverse(r.matrix);
    lemma_apply3_times(r.matrix.transposed(), r.matrix, v);
    lemma_apply3_times(r.matrix, r.matrix.transposed(), v);
    lemma_apply3_identity(v);
}

/// The composition of two rotations of the plane is a rotation.
pub proof fn lemma_rotation2_product_is_rotation<S: Field>(a: Rotation2<S>, b: Rotation2<S>)
    requires
        a.is_rotation(),
        b.is_rotation(),
    ensures
        a.times(b).is_rotation(),
{
    lemma_rotation2_product_is_orthogonal(a, b);
    lemma_determinant2_times(a.matrix, b.matrix);
    S::law_times_one(S::one_value());
}

/// The composition of two rotations of space is a rotation.
pub proof fn lemma_rotation3_product_is_rotation<S: Field>(a: Rotation3<S>, b: Rotation3<S>)
    requires
        a.is_rotation(),
        b.is_rotation(),
    ensures
        a.times(b).is_rotation(),
{
    lemma_rotation3_product_is_orthogonal(a, b);
    lemma_determinant3_times(a.matrix, b.matrix);
    S::law_times_one(S::one_value());
}

/// A matrix built from a cosine and a sine whose squares sum to one is a
/// rotation.
pub proof fn lemma_rotation2_from_cos_sin_is_rotation<S: Field>(cos: S, sin: S)
    requires
        cos.times(cos).plus(sin.times(sin)) == S::one_value(),
    ensures
        Rotation2::<S>::from_cos_sin(cos, sin).is_rotation(),
{
    let ns = sin.negated();
    // columns: (c, s) and (-s, c)
    lemma_negated_times(sin, ns);
    lemma_times_negated(sin, sin);
    lemma_negated_twice(sin.times(sin));
    S::law_plus_commutes(sin.times(sin), cos.times(cos));
    lemma_times_negated(cos, sin);
    lemma_negated_times(sin, cos);
    S::law_times_commutes(cos, sin);
    lemma_negated_plus(cos.times(sin));
    S::law_plus_negated(cos.times(sin));
    // determinant: c c - (-s) s
    S::law_minus(cos.times(cos), ns.times(sin));
    lemma_negated_times(sin, sin);
}


/// Dividing a vector by a number whose square is the squared length of the
/// vector gives a vector of length one.
pub proof fn lemma_normalized_is_unit<S: Field>(v: Vector3<S>, n: S)
    requires
        n.times(n) == v.dot_product(v),
        !n.vanishes(),
    ensures
        v.unscaled(n).dot_product(v.unscaled(n)) == S::one_value(),
{
    let u = v.unscaled(n);
    let one = S::one_value();
    S::law_over(v.x, n);
    S::law_over(v.y, n);
    S::law_over(v.z, n);
    // n (u . u) = v . u
    S::law_distributes(n, u.x.times(u.x).plus(u.y.times(u.y)), u.z.times(u.z));
    S::law_distributes(n, u.x.times(u.x), u.y.times(u.y));
    S::law_times_associates(n, u.x, u.x);
    S::law_times_associates(n, u.y, u.y);
    S::law_times_associates(n, u.z, u.z);
    // n (v . u) = v . v
    S::law_distributes(n, v.x.times(u.x).plus(v.y.times(u.y)), v.z.times(u.z));
    S::law_distributes(n, v.x.times(u.x), v.y.times(u.y));
    lemma_swap_factors(n, v.x, u.x);
    lemma_swap_factors(n, v.y, u.y);
    lemma_swap_factors(n, v.z, u.z);
    S::law_times_one(n);
    lemma_cancel_factor(n, n.times(u.dot_product(u)), n.times(one));
    lemma_cancel_factor(n, u.dot_product(u), one);
}

/// Dividing a vector by a number other than zero keeps it orthogonal to what
/// it was orthogonal to.
pub proof fn lemma_unscaled_stays_orthogonal<S: Field>(v: Vector3<S>, w: Vector3<S>, n: S)
    requires
        v.dot_product(w) == S::zero_value(),
        !n.vanishes(),
    ensures
        v.unscaled(n).dot_product(w) == S::zero_value(),
{
    let u = v.unscaled(n);
    S::law_over(v.x, n);
    S::law_over(v.y, n);
    S::law_over(v.z, n);
    S::law_distributes(n, u.x.times(w.x).plus(u.y.times(w.y)), u.z.times(w.z));
    S::law_distributes(n, u.x.times(w.x), u.y.times(w.y));
    S::law_times_associates(n, u.x, w.x);
    S::law_times_associates(n, u.y, w.y);
    S::law_times_associates(n, u.z, w.z);
    lemma_times_zero(n);
    lemma_cancel_factor(n, u.dot_product(w), S::zero_value());
}

/// Two orthogonal unit vectors `x` and `z`, with their cross product
/// `z x x` between them, are the columns of a rotation matrix, and its rows
/// as well.
pub proof fn lemma_frame_is_rotation<S: Field>(x: Vector3<S>, z: Vector3<S>)
    requires
        x.dot_product(x) == S::one_value(),
        z.dot_product(z) == S::one_value(),
        x.dot_product(z) == S::zero_value(),
    ensures
        Rotation3::from_columns(x, z.cross_product(x), z).is_rotation(),
        Rotation3::from_rows(x, z.cross_product(x), z).is_rotation(),
{
    let (zero, one) = (S::zero_value(), S::one_value());
    let y = z.cross_product(x);
    let m = Matrix3x3::from_columns(x, y, z);
    // y . y = 1
    lemma_lagrange3(z, x);
    lemma_dot3_commutes(z, x);
    S::law_times_one(one);
    lemma_times_zero(zero);
    S::law_minus(one, zero);
    lemma_negated_zero::<S>();
    S::law_plus_zero(one);
    // x . y = z . y = 0
    lemma_triple_repeats(z, x);
    lemma_dot3_commutes(y, x);
    lemma_dot3_commutes(y, z);
    // the determinant is x . (y x z) = y . (z x x) = y . y
    lemma_determinant3_transposes(m);
    lemma_triple_cycles(x, y, z);
    // the transpose
    lemma_orthogonal3_transpose_is_inverse(m);
}

/// The left-handed view rotation and its inverse are rotations, provided the
/// two square roots taken on the way are exact and not zero: the length of
/// `direction`, and the length of the cross product of `up` with the
/// normalized direction.
pub proof fn lemma_look_to_lh_is_rotation<S: Field + ScalarFloat>(
    direction: Vector3<S>,
    up: Vector3<S>,
)
    requires
        direction.norm().times(direction.norm()) == direction.dot_product(direction),
        !direction.norm().vanishes(),
        ({
            let w = up.cross_product(direction.normalized());
            w.norm().times(w.norm()) == w.dot_product(w) && !w.norm().vanishes()
        }),
    ensures
        Rotation3::look_to_lh_value(direction, up).is_rotation(),
        Rotation3::look_to_lh_inv_value(direction, up).is_rotation(),
{
    let z = direction.normalized();
    let w = up.cross_product(z);
    let x = w.normalized();
    lemma_normalized_is_unit(direction, direction.norm());
    lemma_normalized_is_unit(w, w.norm());
    lemma_triple_repeats(up, z);
    lemma_dot3_commutes(w, z);
    lemma_unscaled_stays_orthogonal(w, z, w.norm());
    lemma_frame_is_rotation(x, z);
}

/// The right-handed view rotation and its inverse are rotations, provided
/// the two square roots taken on the way are exact and not zero: the length
/// of `direction`, and the length of the cross product of `up` with the
/// negated normalized direction.
pub proof fn lemma_look_to_rh_is_rotation<S: Field + ScalarFloat>(
    direction: Vector3<S>,
    up: Vector3<S>,
)
    requires
        direction.norm().times(direction.norm()) == direction.dot_product(direction),
        !direction.norm().vanishes(),
        ({
            let w = up.cross_product(direction.normalized().negated());
            w.norm().times(w.norm()) == w.dot_product(w) && !w.norm().vanishes()
        }),
    ensures
        Rotation3::look_to_rh_value(direction, up).is_rotation(),
        Rotation3::look_to_rh_inv_value(direction, up).is_rotation(),
{
    let d = direction.normalized();
    let z = d.negated();
    let w = up.cross_product(z);
    let x = w.normalized();
    lemma_normalized_is_unit(direction, direction.norm());
    // (-d) . (-d) = d . d
    lemma_negated_times(d.x, z.x);
    lemma_negated_times(d.y, z.y);
    lemma_negated_times(d.z, z.z);
    lemma_times_negated(d.x, d.x);
    lemma_times_negated(d.y, d.y);
    lemma_times_negated(d.z, d.z);
    lemma_negated_twice(d.x.times(d.x));
    lemma_negated_twice(d.y.times(d.y));
    lemma_negated_twice(d.z.times(d.z));
    lemma_normalized_is_unit(w, w.norm());
    lemma_triple_repeats(up, z);
    lemma_dot3_commutes(w, z);
    lemma_unscaled_stays_orthogonal(w, z, w.norm());
    lemma_frame_is_rotation(x, z);
}

} // verus!
