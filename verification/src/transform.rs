//! General affine transformations, held as homogeneous matrices.
//!
//! Every specialized transformation can be written as one of these; they are
//! composed by matrix multiplication and inverted by general matrix
//! inversion, with no use of any special structure.

use crate::algebra::{
    lemma_apply3_identity, lemma_apply3_times, lemma_apply4_times, lemma_one_times,
    lemma_times_zero, lemma_zero_plus, lemma_zero_times,
};
use crate::adjugate4::lemma_inverse4_is_inverse;
use crate::determinant::lemma_inverse3_is_inverse;
use crate::matrix::{Matrix3x3, Matrix4x4};
use crate::point::{Point2, Point3};
use crate::scalar::{Field, Scalar};
use crate::vector::{Vector2, Vector3};
use vstd::prelude::*;

verus! {

/// What every affine transformation of the plane offers: an identity, an
/// inverse where there is one, its action on points and on vectors, and a
/// conversion to the general form.
pub trait AffineTransformation2D<S: Scalar>: Sized {
    /// The transformation that moves nothing.
    spec fn identity_value() -> Self;

    /// The inverse transformation, or nothing where there is none.
    spec fn inverse_value(self) -> Option<Self>;

    /// The image of the vector `v`.
    spec fn apply_to_vector(self, v: Vector2<S>) -> Vector2<S>;

    /// The image of the point `p`.
    spec fn apply_to_point(self, p: Point2<S>) -> Point2<S>;

    /// The transformation in general form.
    spec fn general(self) -> Transform2D<S>;

    fn identity() -> (r: Self)
        ensures
            r == Self::identity_value(),
    ;

    /// Computes the inverse. A singular transformation has none.
    fn inverse(&self) -> (r: Option<Self>)
        ensures
            r == self.inverse_value(),
    ;

    fn apply_vector(&self, vector: Vector2<S>) -> (r: Vector2<S>)
        ensures
            r == self.apply_to_vector(vector),
    ;

    fn apply_point(&self, point: Point2<S>) -> (r: Point2<S>)
        ensures
            r == self.apply_to_point(point),
    ;

    /// Applies the inverse to a vector, where there is an inverse.
    fn apply_inverse_vector(&self, vector: Vector2<S>) -> (r: Option<Vector2<S>>)
        ensures
            r == (match self.inverse_value() {
                Some(inverse) => Some(inverse.apply_to_vector(vector)),
                None => None,
            }),
    {
        match self.inverse() {
            Some(inverse) => Some(inverse.apply_vector(vector)),
            None => None,
        }
    }

    fn to_transform2d(&self) -> (r: Transform2D<S>)
        ensures
            r == self.general(),
    ;
}

/// An affine transformation of the plane, as a homogeneous matrix of three
/// dimensions. For a transformation that is affine the last row of the matrix
/// is `(0, 0, 1)`; the type does not enforce it.
#[derive(Clone, Copy, Debug, PartialEq)]
pub struct Transform2D<S> {
    pub matrix: Matrix3x3<S>,
}

impl<S: Scalar> Transform2D<S> {
    /// Wraps a homogeneous matrix as it is.
    pub fn from_matrix_unchecked(matrix: Matrix3x3<S>) -> (r: Self)
        ensures
            r.matrix == matrix,
    {
        Transform2D { matrix }
    }

    /// The homogeneous matrix.
    pub fn matrix(&self) -> (r: &Matrix3x3<S>)
        ensures
            *r == self.matrix,
    {
        &self.matrix
    }

    /// Composes two transformations: the result applies `other` first.
    pub fn mul(&self, other: &Self) -> (r: Self)
        ensures
            r == self.times(*other),
    {
        Transform2D { matrix: self.matrix.mul(&other.matrix) }
    }
}

impl<S: Scalar> AffineTransformation2D<S> for Transform2D<S> {
    open spec fn identity_value() -> Self {
        Transform2D { matrix: Matrix3x3::identity_value() }
    }

    /// The transformation with the inverse matrix, where the determinant
    /// does not compare equal to zero.
    open spec fn inverse_value(self) -> Option<Self> {
        match self.matrix.inverse_value() {
            Some(matrix) => Some(Transform2D { matrix }),
            None => None,
        }
    }

    /// The vector gets a last coordinate of zero, is multiplied by the
    /// matrix, and loses its last coordinate again.
    open spec fn apply_to_vector(self, v: Vector2<S>) -> Vector2<S> {
        self.matrix.apply(v.extended(S::zero_value())).contracted()
    }

    /// The point gets a last coordinate of one, is multiplied by the matrix,
    /// and loses its last coordinate again.
    open spec fn apply_to_point(self, p: Point2<S>) -> Point2<S> {
        Point2::at(self.matrix.apply(p.homogeneous()).contracted())
    }

    open spec fn general(self) -> Transform2D<S> {
        self
    }

    fn identity() -> (r: Self) {
        Transform2D { matrix: Matrix3x3::identity() }
    }

    fn inverse(&self) -> (r: Option<Self>) {
        if let Some(matrix) = self.matrix.inverse() {
            Some(Transform2D { matrix })
        } else {
            None
        }
    }

    fn apply_vector(&self, vector: Vector2<S>) -> (r: Vector2<S>) {
        self.matrix.mul_vector(&vector.extend(S::zero())).contract()
    }

    fn apply_point(&self, point: Point2<S>) -> (r: Point2<S>) {
        Point2::from_vector(&self.matrix.mul_vector(&point.to_homogeneous()).contract())
    }

    fn to_transform2d(&self) -> (r: Transform2D<S>) {
        *self
    }
}

/// What every affine transformation of space offers: an identity, an
/// inverse where there is one, its action on points and on vectors, and a
/// conversion to the general form.
pub trait AffineTransformation3D<S: Scalar>: Sized {
    /// The transformation that moves nothing.
    spec fn identity_value() -> Self;

    /// The inverse transformation, or nothing where there is none.
    spec fn inverse_value(self) -> Option<Self>;

    /// The image of the vector `v`.
    spec fn apply_to_vector(self, v: Vector3<S>) -> Vector3<S>;

    /// The image of the point `p`.
    spec fn apply_to_point(self, p: Point3<S>) -> Point3<S>;

    /// The transformation in general form.
    spec fn general(self) -> Transform3D<S>;

    fn identity() -> (r: Self)
        ensures
            r == Self::identity_value(),
    ;

    /// Computes the inverse. A singular transformation has none.
    fn inverse(&self) -> (r: Option<Self>)
        ensures
            r == self.inverse_value(),
    ;

    fn apply_vector(&self, vector: Vector3<S>) -> (r: Vector3<S>)
        ensures
            r == self.apply_to_vector(vector),
    ;

    fn apply_point(&self, point: Point3<S>) -> (r: Point3<S>)
        ensures
            r == self.apply_to_point(point),
    ;

    /// Applies the inverse to a vector, where there is an inverse.
    fn apply_inverse_vector(&self, vector: Vector3<S>) -> (r: Option<Vector3<S>>)
        ensures
            r == (match self.inverse_value() {
                Some(inverse) => Some(inverse.apply_to_vector(vector)),
                None => None,
            }),
    {
        match self.inverse() {
            Some(inverse) => Some(inverse.apply_vector(vector)),
            None => None,
        }
    }

    fn to_transform3d(&self) -> (r: Transform3D<S>)
        ensures
            r == self.general(),
    ;
}

/// An affine transformation of space, as a homogeneous matrix of four
/// dimensions. For a transformation that is affine the last row of the matrix
/// is `(0, 0, 0, 1)`; the type does not enforce it.
#[derive(Clone, Copy, Debug, PartialEq)]
pub struct Transform3D<S> {
    pub matrix: Matrix4x4<S>,
}

impl<S: Scalar> Transform3D<S> {
    /// Wraps a homogeneous matrix as it is.
    pub fn from_matrix_unchecked(matrix: Matrix4x4<S>) -> (r: Self)
        ensures
            r.matrix == matrix,
    {
        Transform3D { matrix }
    }

    /// The homogeneous matrix.
    pub fn matrix(&self) -> (r: &Matrix4x4<S>)
        ensures
            *r == self.matrix,
    {
        &self.matrix
    }

    /// Composes two transformations: the result applies `other` first.
    pub fn mul(&self, other: &Self) -> (r: Self)
        ensures
            r == self.times(*other),
    {
        Transform3D { matrix: self.matrix.mul(&other.matrix) }
    }
}

impl<S: Scalar> AffineTransformation3D<S> for Transform3D<S> {
    open spec fn identity_value() -> Self {
        Transform3D { matrix: Matrix4x4::identity_value() }
    }

    /// The transformation with the inverse matrix, where the determinant
    /// does not compare equal to zero.
    open spec fn inverse_value(self) -> Option<Self> {
        match self.matrix.inverse_value() {
            Some(matrix) => Some(Transform3D { matrix }),
            None => None,
        }
    }

    /// The vector gets a last coordinate of zero, is multiplied by the
    /// matrix, and loses its last coordinate again.
    open spec fn apply_to_vector(self, v: Vector3<S>) -> Vector3<S> {
        self.matrix.apply(v.extended(S::zero_value())).contracted()
    }

    /// The point gets a last coordinate of one, is multiplied by the matrix,
    /// and loses its last coordinate again.
    open spec fn apply_to_point(self, p: Point3<S>) -> Point3<S> {
        Point3::at(self.matrix.apply(p.homogeneous()).contracted())
    }

    open spec fn general(self) -> Transform3D<S> {
        self
    }

    fn identity() -> (r: Self) {
        Transform3D { matrix: Matrix4x4::identity() }
    }

    fn inverse(&self) -> (r: Option<Self>) {
        if let Some(matrix) = self.matrix.inverse() {
            Some(Transform3D { matrix })
        } else {
            None
        }
    }

    fn apply_vector(&self, vector: Vector3<S>) -> (r: Vector3<S>) {
        self.matrix.mul_vector(&vector.extend(S::zero())).contract()
    }

    fn apply_point(&self, point: Point3<S>) -> (r: Point3<S>) {
        Point3::from_vector(&self.matrix.mul_vector(&point.to_homogeneous()).contract())
    }

    fn to_transform3d(&self) -> (r: Transform3D<S>) {
        *self
    }
}


impl<S: Scalar> Transform2D<S> {
    /// The last row of the matrix is `(0, 0, 1)`: the transformation is
    /// affine.
    pub open spec fn is_affine(self) -> bool {
        &&& self.matrix.c0r2 == S::zero_value()
        &&& self.matrix.c1r2 == S::zero_value()
        &&& self.matrix.c2r2 == S::one_value()
    }

    /// The composition that applies `other` first and `self` second.
    pub open spec fn times(self, other: Self) -> Self {
        Transform2D { matrix: self.matrix.times(other.matrix) }
    }
}

impl<S: Scalar> Transform3D<S> {
    /// The last row of the matrix is `(0, 0, 0, 1)`: the transformation is
    /// affine.
    pub open spec fn is_affine(self) -> bool {
        &&& self.matrix.c0r3 == S::zero_value()
        &&& self.matrix.c1r3 == S::zero_value()
        &&& self.matrix.c2r3 == S::zero_value()
        &&& self.matrix.c3r3 == S::one_value()
    }

    /// The composition that applies `other` first and `self` second.
    pub open spec fn times(self, other: Self) -> Self {
        Transform3D { matrix: self.matrix.times(other.matrix) }
    }
}

/// The identity transformation of the plane is affine and fixes every point
/// and every vector.
pub proof fn lemma_transform2d_identity_fixes<S: Field>(p: Point2<S>, v: Vector2<S>)
    ensures
        Transform2D::<S>::identity_value().is_affine(),
        Transform2D::<S>::identity_value().apply_to_point(p) == p,
        Transform2D::<S>::identity_value().apply_to_vector(v) == v,
{
    lemma_apply3_identity(p.homogeneous());
    lemma_apply3_identity(v.extended(S::zero_value()));
}

/// A transformation of the plane whose determinant is not zero has an
/// inverse, which undoes it on both sides.
pub proof fn lemma_transform2d_inverse_cancels<S: Field>(t: Transform2D<S>)
    requires
        !t.matrix.determinant_value().vanishes(),
    ensures
        t.inverse_value() is Some,
        t.inverse_value().unwrap().times(t) == Transform2D::<S>::identity_value(),
        t.times(t.inverse_value().unwrap()) == Transform2D::<S>::identity_value(),
{
    lemma_inverse3_is_inverse(t.matrix);
}

/// The inverse of a transformation of the plane sends the image of an affine
/// transformation back to the point it came from.
pub proof fn lemma_transform2d_inverse_undoes<S: Field>(t: Transform2D<S>, p: Point2<S>)
    requires
        t.is_affine(),
        !t.matrix.determinant_value().vanishes(),
    ensures
        t.inverse_value().unwrap().apply_to_point(t.apply_to_point(p)) == p,
{
    lemma_inverse3_is_inverse(t.matrix);
    let inverse = t.inverse_value().unwrap();
    lemma_transform2d_times_applies(inverse, t, p, p.position());
    lemma_transform2d_identity_fixes(p, p.position());
}

/// The composition of affine transformations of the plane is affine.
pub proof fn lemma_transform2d_times_is_affine<S: Field>(t: Transform2D<S>, u: Transform2D<S>)
    requires
        t.is_affine(),
        u.is_affine(),
    ensures
        t.times(u).is_affine(),
{
    let (zero, one) = (S::zero_value(), S::one_value());
    lemma_zero_times(u.matrix.c0r0);
    lemma_zero_times(u.matrix.c0r1);
    lemma_zero_times(u.matrix.c1r0);
    lemma_zero_times(u.matrix.c1r1);
    lemma_zero_times(u.matrix.c2r0);
    lemma_zero_times(u.matrix.c2r1);
    lemma_times_zero(one);
    S::law_times_one(one);
    S::law_plus_zero(zero);
    lemma_zero_plus(one);
}

/// Composition agrees with application: where the first transformation is
/// affine, the composed transformation sends a point or a vector to where the
/// two send it in turn.
pub proof fn lemma_transform2d_times_applies<S: Field>(
    t: Transform2D<S>,
    u: Transform2D<S>,
    p: Point2<S>,
    v: Vector2<S>,
)
    requires
        u.is_affine(),
    ensures
        t.times(u).apply_to_point(p) == t.apply_to_point(u.apply_to_point(p)),
        t.times(u).apply_to_vector(v) == t.apply_to_vector(u.apply_to_vector(v)),
{
    let (zero, one) = (S::zero_value(), S::one_value());
    lemma_apply3_times(t.matrix, u.matrix, p.homogeneous());
    lemma_apply3_times(t.matrix, u.matrix, v.extended(zero));
    lemma_zero_times(p.x);
    lemma_zero_times(p.y);
    lemma_zero_times(v.x);
    lemma_zero_times(v.y);
    S::law_times_one(one);
    lemma_times_zero(one);
    S::law_plus_zero(zero);
    lemma_zero_plus(one);
}

/// The identity transformation of space is affine and fixes every point and
/// every vector.
pub proof fn lemma_transform3d_identity_fixes<S: Field>(p: Point3<S>, v: Vector3<S>)
    ensures
        Transform3D::<S>::identity_value().is_affine(),
        Transform3D::<S>::identity_value().apply_to_point(p) == p,
        Transform3D::<S>::identity_value().apply_to_vector(v) == v,
{
    let (zero, one) = (S::zero_value(), S::one_value());
    lemma_one_times(p.x);
    lemma_one_times(p.y);
    lemma_one_times(p.z);
    lemma_one_times(v.x);
    lemma_one_times(v.y);
    lemma_one_times(v.z);
    lemma_zero_times(p.x);
    lemma_zero_times(p.y);
    lemma_zero_times(p.z);
    lemma_zero_times(v.x);
    lemma_zero_times(v.y);
    lemma_zero_times(v.z);
    lemma_zero_times(one);
    lemma_zero_times(zero);
    S::law_plus_zero(zero);
    S::law_plus_zero(p.x);
    S::law_plus_zero(p.y);
    S::law_plus_zero(p.z);
    S::law_plus_zero(v.x);
    S::law_plus_zero(v.y);
    S::law_plus_zero(v.z);
    lemma_zero_plus(p.y);
    lemma_zero_plus(p.z);
    lemma_zero_plus(v.y);
    lemma_zero_plus(v.z);
}

/// The composition of affine transformations of space is affine.
pub proof fn lemma_transform3d_times_is_affine<S: Field>(t: Transform3D<S>, u: Transform3D<S>)
    requires
        t.is_affine(),
        u.is_affine(),
    ensures
        t.times(u).is_affine(),
{
    let (zero, one) = (S::zero_value(), S::one_value());
    let m = u.matrix;
    lemma_zero_times(m.c0r0);
    lemma_zero_times(m.c0r1);
    lemma_zero_times(m.c0r2);
    lemma_zero_times(m.c1r0);
    lemma_zero_times(m.c1r1);
    lemma_zero_times(m.c1r2);
    lemma_zero_times(m.c2r0);
    lemma_zero_times(m.c2r1);
    lemma_zero_times(m.c2r2);
    lemma_zero_times(m.c3r0);
    lemma_zero_times(m.c3r1);
    lemma_zero_times(m.c3r2);
    lemma_times_zero(one);
    S::law_times_one(one);
    S::law_plus_zero(zero);
    lemma_zero_plus(one);
}


/// Composition agrees with application: where the first transformation is
/// affine, the composed transformation sends a point or a vector to where the
/// two send it in turn.
pub proof fn lemma_transform3d_times_applies<S: Field>(
    t: Transform3D<S>,
    u: Transform3D<S>,
    p: Point3<S>,
    v: Vector3<S>,
)
    requires
        u.is_affine(),
    ensures
        t.times(u).apply_to_point(p) == t.apply_to_point(u.apply_to_point(p)),
        t.times(u).apply_to_vector(v) == t.apply_to_vector(u.apply_to_vector(v)),
{
    let (zero, one) = (S::zero_value(), S::one_value());
    lemma_apply4_times(t.matrix, u.matrix, p.homogeneous());
    lemma_apply4_times(t.matrix, u.matrix, v.extended(zero));
    lemma_zero_times(p.x);
    lemma_zero_times(p.y);
    lemma_zero_times(p.z);
    lemma_zero_times(v.x);
    lemma_zero_times(v.y);
    lemma_zero_times(v.z);
    S::law_times_one(one);
    lemma_times_zero(one);
    S::law_plus_zero(zero);
    lemma_zero_plus(one);
}


/// A transformation of space whose determinant is not zero has an inverse,
/// which undoes it on both sides.
pub proof fn lemma_transform3d_inverse_cancels<S: Field>(t: Transform3D<S>)
    requires
        !t.matrix.determinant_value().vanishes(),
    ensures
        t.inverse_value() is Some,
        t.inverse_value().unwrap().times(t) == Transform3D::<S>::identity_value(),
        t.times(t.inverse_value().unwrap()) == Transform3D::<S>::identity_value(),
{
    lemma_inverse4_is_inverse(t.matrix);
}

/// The inverse of a transformation of space sends the image of an affine
/// transformation back to the point it came from.
pub proof fn lemma_transform3d_inverse_undoes<S: Field>(t: Transform3D<S>, p: Point3<S>)
    requires
        t.is_affine(),
        !t.matrix.determinant_value().vanishes(),
    ensures
        t.inverse_value().unwrap().apply_to_point(t.apply_to_point(p)) == p,
{
    lemma_inverse4_is_inverse(t.matrix);
    let inverse = t.inverse_value().unwrap();
    lemma_transform3d_times_applies(inverse, t, p, p.position());
    lemma_transform3d_identity_fixes(p, p.position());
}

} // verus!
