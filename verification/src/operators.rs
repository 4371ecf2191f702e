//! Operator notation for applying and composing transformations, and for
//! the arithmetic of complex numbers.
//!
//! `a * b` composes two transformations, applying `b` first; `a * p` applies
//! a transformation to a point or to a vector. The order of the operands is
//! the order of application read from right to left: in `i * p` for a rigid
//! motion `i` the point is rotated first and translated second.

use crate::complex::Complex;
use crate::isometry::{Isometry2, Isometry3};
use crate::matrix::{Matrix2x2, Matrix3x3, Matrix4x4};
use crate::point::{Point2, Point3};
use crate::rotation::{Rotation2, Rotation3};
use crate::scalar::{Scalar, ScalarSigned};
use crate::similarity::{Similarity2, Similarity3};
use crate::transform::{Transform2D, Transform3D};
use crate::translation::{Translation2, Translation3};
use crate::vector::{Vector2, Vector3, Vector4};
use core::ops::{Add, Div, Mul, Neg, Sub};
use vstd::prelude::*;
use vstd::std_specs::ops::{AddSpecImpl, DivSpecImpl, MulSpecImpl, NegSpecImpl, SubSpecImpl};

verus! {

impl<S: Scalar> Mul<Point2<S>> for Similarity2<S> {
    type Output = Point2<S>;

    fn mul(self, other: Point2<S>) -> (r: Point2<S>) {
        self.transform_point(&other)
    }
}

impl<S: Scalar> MulSpecImpl<Point2<S>> for Similarity2<S> {
    open spec fn obeys_mul_spec() -> bool {
        true
    }

    open spec fn mul_req(self, other: Point2<S>) -> bool {
        true
    }

    open spec fn mul_spec(self, other: Point2<S>) -> Point2<S> {
        self.transform_at(other)
    }
}

impl<S: Scalar> Mul<Similarity2<S>> for Similarity2<S> {
    type Output = Similarity2<S>;

    fn mul(self, other: Similarity2<S>) -> (r: Similarity2<S>) {
        Self::mul(&self, &other)
    }
}

impl<S: Scalar> MulSpecImpl<Similarity2<S>> for Similarity2<S> {
    open spec fn obeys_mul_spec() -> bool {
        true
    }

    open spec fn mul_req(self, other: Similarity2<S>) -> bool {
        true
    }

    open spec fn mul_spec(self, other: Similarity2<S>) -> Similarity2<S> {
        self.times(other)
    }
}

impl<S: Scalar> Mul<Isometry2<S>> for Similarity2<S> {
    type Output = Similarity2<S>;

    fn mul(self, other: Isometry2<S>) -> (r: Similarity2<S>) {
        self.mul_isometry(&other)
    }
}

impl<S: Scalar> MulSpecImpl<Isometry2<S>> for Similarity2<S> {
    open spec fn obeys_mul_spec() -> bool {
        true
    }

    open spec fn mul_req(self, other: Isometry2<S>) -> bool {
        true
    }

    open spec fn mul_spec(self, other: Isometry2<S>) -> Similarity2<S> {
        self.times_isometry(other)
    }
}

impl<S: Scalar> Mul<Point2<S>> for Isometry2<S> {
    type Output = Point2<S>;

    fn mul(self, other: Point2<S>) -> (r: Point2<S>) {
        self.transform_point(&other)
    }
}

impl<S: Scalar> MulSpecImpl<Point2<S>> for Isometry2<S> {
    open spec fn obeys_mul_spec() -> bool {
        true
    }

    open spec fn mul_req(self, other: Point2<S>) -> bool {
        true
    }

    open spec fn mul_spec(self, other: Point2<S>) -> Point2<S> {
        self.transform_at(other)
    }
}

impl<S: Scalar> Mul<Isometry2<S>> for Isometry2<S> {
    type Output = Isometry2<S>;

    fn mul(self, other: Isometry2<S>) -> (r: Isometry2<S>) {
        Self::mul(&self, &other)
    }
}

impl<S: Scalar> MulSpecImpl<Isometry2<S>> for Isometry2<S> {
    open spec fn obeys_mul_spec() -> bool {
        true
    }

    open spec fn mul_req(self, other: Isometry2<S>) -> bool {
        true
    }

    open spec fn mul_spec(self, other: Isometry2<S>) -> Isometry2<S> {
        self.times(other)
    }
}

impl<S: Scalar> Mul<Rotation2<S>> for Rotation2<S> {
    type Output = Rotation2<S>;

    fn mul(self, other: Rotation2<S>) -> (r: Rotation2<S>) {
        Self::mul(&self, &other)
    }
}

impl<S: Scalar> MulSpecImpl<Rotation2<S>> for Rotation2<S> {
    open spec fn obeys_mul_spec() -> bool {
        true
    }

    open spec fn mul_req(self, other: Rotation2<S>) -> bool {
        true
    }

    open spec fn mul_spec(self, other: Rotation2<S>) -> Rotation2<S> {
        self.times(other)
    }
}

impl<S: Scalar> Mul<Vector2<S>> for Rotation2<S> {
    type Output = Vector2<S>;

    fn mul(self, other: Vector2<S>) -> (r: Vector2<S>) {
        self.rotate_vector(&other)
    }
}

impl<S: Scalar> MulSpecImpl<Vector2<S>> for Rotation2<S> {
    open spec fn obeys_mul_spec() -> bool {
        true
    }

    open spec fn mul_req(self, other: Vector2<S>) -> bool {
        true
    }

    open spec fn mul_spec(self, other: Vector2<S>) -> Vector2<S> {
        self.rotate(other)
    }
}

impl<S: Scalar> Mul<Point2<S>> for Rotation2<S> {
    type Output = Point2<S>;

    fn mul(self, other: Point2<S>) -> (r: Point2<S>) {
        self.rotate_point(&other)
    }
}

impl<S: Scalar> MulSpecImpl<Point2<S>> for Rotation2<S> {
    open spec fn obeys_mul_spec() -> bool {
        true
    }

    open spec fn mul_req(self, other: Point2<S>) -> bool {
        true
    }

    open spec fn mul_spec(self, other: Point2<S>) -> Point2<S> {
        self.rotate_at(other)
    }
}

impl<S: Scalar> Mul<Translation2<S>> for Translation2<S> {
    type Output = Translation2<S>;

    fn mul(self, other: Translation2<S>) -> (r: Translation2<S>) {
        Self::mul(&self, &other)
    }
}

impl<S: Scalar> MulSpecImpl<Translation2<S>> for Translation2<S> {
    open spec fn obeys_mul_spec() -> bool {
        true
    }

    open spec fn mul_req(self, other: Translation2<S>) -> bool {
        true
    }

    open spec fn mul_spec(self, other: Translation2<S>) -> Translation2<S> {
        self.times(other)
    }
}

impl<S: Scalar> Mul<Point2<S>> for Translation2<S> {
    type Output = Point2<S>;

    fn mul(self, other: Point2<S>) -> (r: Point2<S>) {
        self.translate_point(&other)
    }
}

impl<S: Scalar> MulSpecImpl<Point2<S>> for Translation2<S> {
    open spec fn obeys_mul_spec() -> bool {
        true
    }

    open spec fn mul_req(self, other: Point2<S>) -> bool {
        true
    }

    open spec fn mul_spec(self, other: Point2<S>) -> Point2<S> {
        self.translate_at(other)
    }
}

impl<S: Scalar> Mul<Point3<S>> for Similarity3<S> {
    type Output = Point3<S>;

    fn mul(self, other: Point3<S>) -> (r: Point3<S>) {
        self.transform_point(&other)
    }
}

impl<S: Scalar> MulSpecImpl<Point3<S>> for Similarity3<S> {
    open spec fn obeys_mul_spec() -> bool {
        true
    }

    open spec fn mul_req(self, other: Point3<S>) -> bool {
        true
    }

    open spec fn mul_spec(self, other: Point3<S>) -> Point3<S> {
        self.transform_at(other)
    }
}

impl<S: Scalar> Mul<Similarity3<S>> for Similarity3<S> {
    type Output = Similarity3<S>;

    fn mul(self, other: Similarity3<S>) -> (r: Similarity3<S>) {
        Self::mul(&self, &other)
    }
}

impl<S: Scalar> MulSpecImpl<Similarity3<S>> for Similarity3<S> {
    open spec fn obeys_mul_spec() -> bool {
        true
    }

    open spec fn mul_req(self, other: Similarity3<S>) -> bool {
        true
    }

    open spec fn mul_spec(self, other: Similarity3<S>) -> Similarity3<S> {
        self.times(other)
    }
}

impl<S: Scalar> Mul<Isometry3<S>> for Similarity3<S> {
    type Output = Similarity3<S>;

    fn mul(self, other: Isometry3<S>) -> (r: Similarity3<S>) {
        self.mul_isometry(&other)
    }
}

impl<S: Scalar> MulSpecImpl<Isometry3<S>> for Similarity3<S> {
    open spec fn obeys_mul_spec() -> bool {
        true
    }

    open spec fn mul_req(self, other: Isometry3<S>) -> bool {
        true
    }

    open spec fn mul_spec(self, other: Isometry3<S>) -> Similarity3<S> {
        self.times_isometry(other)
    }
}

impl<S: Scalar> Mul<Point3<S>> for Isometry3<S> {
    type Output = Point3<S>;

    fn mul(self, other: Point3<S>) -> (r: Point3<S>) {
        self.transform_point(&other)
    }
}

impl<S: Scalar> MulSpecImpl<Point3<S>> for Isometry3<S> {
    open spec fn obeys_mul_spec() -> bool {
        true
    }

    open spec fn mul_req(self, other: Point3<S>) -> bool {
        true
    }

    open spec fn mul_spec(self, other: Point3<S>) -> Point3<S> {
        self.transform_at(other)
    }
}

impl<S: Scalar> Mul<Isometry3<S>> for Isometry3<S> {
    type Output = Isometry3<S>;

    fn mul(self, other: Isometry3<S>) -> (r: Isometry3<S>) {
        Self::mul(&self, &other)
    }
}

impl<S: Scalar> MulSpecImpl<Isometry3<S>> for Isometry3<S> {
    open spec fn obeys_mul_spec() -> bool {
        true
    }

    open spec fn mul_req(self, other: Isometry3<S>) -> bool {
        true
    }

    open spec fn mul_spec(self, other: Isometry3<S>) -> Isometry3<S> {
        self.times(other)
    }
}

impl<S: Scalar> Mul<Rotation3<S>> for Rotation3<S> {
    type Output = Rotation3<S>;

    fn mul(self, other: Rotation3<S>) -> (r: Rotation3<S>) {
        Self::mul(&self, &other)
    }
}

impl<S: Scalar> MulSpecImpl<Rotation3<S>> for Rotation3<S> {
    open spec fn obeys_mul_spec() -> bool {
        true
    }

    open spec fn mul_req(self, other: Rotation3<S>) -> bool {
        true
    }

    open spec fn mul_spec(self, other: Rotation3<S>) -> Rotation3<S> {
        self.times(other)
    }
}

impl<S: Scalar> Mul<Vector3<S>> for Rotation3<S> {
    type Output = Vector3<S>;

    fn mul(self, other: Vector3<S>) -> (r: Vector3<S>) {
        self.rotate_vector(&other)
    }
}

impl<S: Scalar> MulSpecImpl<Vector3<S>> for Rotation3<S> {
    open spec fn obeys_mul_spec() -> bool {
        true
    }

    open spec fn mul_req(self, other: Vector3<S>) -> bool {
        true
    }

    open spec fn mul_spec(self, other: Vector3<S>) -> Vector3<S> {
        self.rotate(other)
    }
}

impl<S: Scalar> Mul<Point3<S>> for Rotation3<S> {
    type Output = Point3<S>;

    fn mul(self, other: Point3<S>) -> (r: Point3<S>) {
        self.rotate_point(&other)
    }
}

impl<S: Scalar> MulSpecImpl<Point3<S>> for Rotation3<S> {
    open spec fn obeys_mul_spec() -> bool {
        true
    }

    open spec fn mul_req(self, other: Point3<S>) -> bool {
        true
    }

    open spec fn mul_spec(self, other: Point3<S>) -> Point3<S> {
        self.rotate_at(other)
    }
}

impl<S: Scalar> Mul<Translation3<S>> for Translation3<S> {
    type Output = Translation3<S>;

    fn mul(self, other: Translation3<S>) -> (r: Translation3<S>) {
        Self::mul(&self, &other)
    }
}

impl<S: Scalar> MulSpecImpl<Translation3<S>> for Translation3<S> {
    open spec fn obeys_mul_spec() -> bool {
        true
    }

    open spec fn mul_req(self, other: Translation3<S>) -> bool {
        true
    }

    open spec fn mul_spec(self, other: Translation3<S>) -> Translation3<S> {
        self.times(other)
    }
}

impl<S: Scalar> Mul<Point3<S>> for Translation3<S> {
    type Output = Point3<S>;

    fn mul(self, other: Point3<S>) -> (r: Point3<S>) {
        self.translate_point(&other)
    }
}

impl<S: Scalar> MulSpecImpl<Point3<S>> for Translation3<S> {
    open spec fn obeys_mul_spec() -> bool {
        true
    }

    open spec fn mul_req(self, other: Point3<S>) -> bool {
        true
    }

    open spec fn mul_spec(self, other: Point3<S>) -> Point3<S> {
        self.translate_at(other)
    }
}

impl<S: Scalar> Mul<Transform2D<S>> for Transform2D<S> {
    type Output = Transform2D<S>;

    fn mul(self, other: Transform2D<S>) -> (r: Transform2D<S>) {
        Self::mul(&self, &other)
    }
}

impl<S: Scalar> MulSpecImpl<Transform2D<S>> for Transform2D<S> {
    open spec fn obeys_mul_spec() -> bool {
        true
    }

    open spec fn mul_req(self, other: Transform2D<S>) -> bool {
        true
    }

    open spec fn mul_spec(self, other: Transform2D<S>) -> Transform2D<S> {
        self.times(other)
    }
}

impl<S: Scalar> Mul<Transform3D<S>> for Transform3D<S> {
    type Output = Transform3D<S>;

    fn mul(self, other: Transform3D<S>) -> (r: Transform3D<S>) {
        Self::mul(&self, &other)
    }
}

impl<S: Scalar> MulSpecImpl<Transform3D<S>> for Transform3D<S> {
    open spec fn obeys_mul_spec() -> bool {
        true
    }

    open spec fn mul_req(self, other: Transform3D<S>) -> bool {
        true
    }

    open spec fn mul_spec(self, other: Transform3D<S>) -> Transform3D<S> {
        self.times(other)
    }
}

impl<S: Scalar> Add<Complex<S>> for Complex<S> {
    type Output = Complex<S>;

    fn add(self, other: Complex<S>) -> (r: Complex<S>) {
        Complex { re: self.re.add(other.re), im: self.im.add(other.im) }
    }
}

impl<S: Scalar> AddSpecImpl<Complex<S>> for Complex<S> {
    open spec fn obeys_add_spec() -> bool {
        true
    }

    open spec fn add_req(self, other: Complex<S>) -> bool {
        true
    }

    open spec fn add_spec(self, other: Complex<S>) -> Complex<S> {
        self.plus(other)
    }
}

impl<S: Scalar> Sub<Complex<S>> for Complex<S> {
    type Output = Complex<S>;

    fn sub(self, other: Complex<S>) -> (r: Complex<S>) {
        Complex { re: self.re.sub(other.re), im: self.im.sub(other.im) }
    }
}

impl<S: Scalar> SubSpecImpl<Complex<S>> for Complex<S> {
    open spec fn obeys_sub_spec() -> bool {
        true
    }

    open spec fn sub_req(self, other: Complex<S>) -> bool {
        true
    }

    open spec fn sub_spec(self, other: Complex<S>) -> Complex<S> {
        self.minus(other)
    }
}

impl<S: Scalar> Mul<Complex<S>> for Complex<S> {
    type Output = Complex<S>;

    fn mul(self, other: Complex<S>) -> (r: Complex<S>) {
        Complex {
            re: self.re.mul(other.re).sub(self.im.mul(other.im)),
            im: self.re.mul(other.im).add(self.im.mul(other.re)),
        }
    }
}

impl<S: Scalar> MulSpecImpl<Complex<S>> for Complex<S> {
    open spec fn obeys_mul_spec() -> bool {
        true
    }

    open spec fn mul_req(self, other: Complex<S>) -> bool {
        true
    }

    open spec fn mul_spec(self, other: Complex<S>) -> Complex<S> {
        self.times(other)
    }
}

impl<S: Scalar> Add<S> for Complex<S> {
    type Output = Complex<S>;

    fn add(self, other: S) -> (r: Complex<S>) {
        self.add_real(other)
    }
}

impl<S: Scalar> AddSpecImpl<S> for Complex<S> {
    open spec fn obeys_add_spec() -> bool {
        true
    }

    open spec fn add_req(self, other: S) -> bool {
        true
    }

    open spec fn add_spec(self, other: S) -> Complex<S> {
        Complex { re: self.re.plus(other), im: self.im }
    }
}

impl<S: Scalar> Sub<S> for Complex<S> {
    type Output = Complex<S>;

    fn sub(self, other: S) -> (r: Complex<S>) {
        self.sub_real(other)
    }
}

impl<S: Scalar> SubSpecImpl<S> for Complex<S> {
    open spec fn obeys_sub_spec() -> bool {
        true
    }

    open spec fn sub_req(self, other: S) -> bool {
        true
    }

    open spec fn sub_spec(self, other: S) -> Complex<S> {
        Complex { re: self.re.minus(other), im: self.im }
    }
}


impl<S: Scalar> Add<Vector2<S>> for Vector2<S> {
    type Output = Vector2<S>;

    fn add(self, other: Vector2<S>) -> (r: Vector2<S>) {
        Vector2::add(&self, &other)
    }
}

impl<S: Scalar> AddSpecImpl<Vector2<S>> for Vector2<S> {
    open spec fn obeys_add_spec() -> bool {
        true
    }

    open spec fn add_req(self, other: Vector2<S>) -> bool {
        true
    }

    open spec fn add_spec(self, other: Vector2<S>) -> Vector2<S> {
        self.plus(other)
    }
}

impl<S: Scalar> Sub<Vector2<S>> for Vector2<S> {
    type Output = Vector2<S>;

    fn sub(self, other: Vector2<S>) -> (r: Vector2<S>) {
        Vector2::sub(&self, &other)
    }
}

impl<S: Scalar> SubSpecImpl<Vector2<S>> for Vector2<S> {
    open spec fn obeys_sub_spec() -> bool {
        true
    }

    open spec fn sub_req(self, other: Vector2<S>) -> bool {
        true
    }

    open spec fn sub_spec(self, other: Vector2<S>) -> Vector2<S> {
        self.minus(other)
    }
}

impl<S: Scalar> Mul<S> for Vector2<S> {
    type Output = Vector2<S>;

    fn mul(self, other: S) -> (r: Vector2<S>) {
        Vector2::mul(&self, other)
    }
}

impl<S: Scalar> MulSpecImpl<S> for Vector2<S> {
    open spec fn obeys_mul_spec() -> bool {
        true
    }

    open spec fn mul_req(self, other: S) -> bool {
        true
    }

    open spec fn mul_spec(self, other: S) -> Vector2<S> {
        self.scaled(other)
    }
}

impl<S: Scalar> Div<S> for Vector2<S> {
    type Output = Vector2<S>;

    fn div(self, other: S) -> (r: Vector2<S>) {
        Vector2::div(&self, other)
    }
}

impl<S: Scalar> DivSpecImpl<S> for Vector2<S> {
    open spec fn obeys_div_spec() -> bool {
        true
    }

    open spec fn div_req(self, other: S) -> bool {
        true
    }

    open spec fn div_spec(self, other: S) -> Vector2<S> {
        self.unscaled(other)
    }
}

impl<S: ScalarSigned> Neg for Vector2<S> {
    type Output = Vector2<S>;

    fn neg(self) -> (r: Vector2<S>) {
        Vector2::neg(&self)
    }
}

impl<S: ScalarSigned> NegSpecImpl for Vector2<S> {
    open spec fn obeys_neg_spec() -> bool {
        true
    }

    open spec fn neg_req(self) -> bool {
        true
    }

    open spec fn neg_spec(self) -> Vector2<S> {
        self.negated()
    }
}

impl<S: Scalar> Add<Vector2<S>> for Point2<S> {
    type Output = Point2<S>;

    fn add(self, other: Vector2<S>) -> (r: Point2<S>) {
        Point2::add(&self, &other)
    }
}

impl<S: Scalar> AddSpecImpl<Vector2<S>> for Point2<S> {
    open spec fn obeys_add_spec() -> bool {
        true
    }

    open spec fn add_req(self, other: Vector2<S>) -> bool {
        true
    }

    open spec fn add_spec(self, other: Vector2<S>) -> Point2<S> {
        self.plus(other)
    }
}

impl<S: Scalar> Sub<Point2<S>> for Point2<S> {
    type Output = Vector2<S>;

    fn sub(self, other: Point2<S>) -> (r: Vector2<S>) {
        Point2::sub(&self, &other)
    }
}

impl<S: Scalar> SubSpecImpl<Point2<S>> for Point2<S> {
    open spec fn obeys_sub_spec() -> bool {
        true
    }

    open spec fn sub_req(self, other: Point2<S>) -> bool {
        true
    }

    open spec fn sub_spec(self, other: Point2<S>) -> Vector2<S> {
        self.minus(other)
    }
}

impl<S: Scalar> Mul<S> for Point2<S> {
    type Output = Point2<S>;

    fn mul(self, other: S) -> (r: Point2<S>) {
        Point2::mul(&self, other)
    }
}

impl<S: Scalar> MulSpecImpl<S> for Point2<S> {
    open spec fn obeys_mul_spec() -> bool {
        true
    }

    open spec fn mul_req(self, other: S) -> bool {
        true
    }

    open spec fn mul_spec(self, other: S) -> Point2<S> {
        self.scaled(other)
    }
}

impl<S: Scalar> Div<S> for Point2<S> {
    type Output = Point2<S>;

    fn div(self, other: S) -> (r: Point2<S>) {
        Point2::div(&self, other)
    }
}

impl<S: Scalar> DivSpecImpl<S> for Point2<S> {
    open spec fn obeys_div_spec() -> bool {
        true
    }

    open spec fn div_req(self, other: S) -> bool {
        true
    }

    open spec fn div_spec(self, other: S) -> Point2<S> {
        self.unscaled(other)
    }
}

impl<S: Scalar> Mul<Matrix2x2<S>> for Matrix2x2<S> {
    type Output = Matrix2x2<S>;

    fn mul(self, other: Matrix2x2<S>) -> (r: Matrix2x2<S>) {
        Matrix2x2::mul(&self, &other)
    }
}

impl<S: Scalar> MulSpecImpl<Matrix2x2<S>> for Matrix2x2<S> {
    open spec fn obeys_mul_spec() -> bool {
        true
    }

    open spec fn mul_req(self, other: Matrix2x2<S>) -> bool {
        true
    }

    open spec fn mul_spec(self, other: Matrix2x2<S>) -> Matrix2x2<S> {
        self.times(other)
    }
}

impl<S: Scalar> Mul<Vector2<S>> for Matrix2x2<S> {
    type Output = Vector2<S>;

    fn mul(self, other: Vector2<S>) -> (r: Vector2<S>) {
        self.mul_vector(&other)
    }
}

impl<S: Scalar> MulSpecImpl<Vector2<S>> for Matrix2x2<S> {
    open spec fn obeys_mul_spec() -> bool {
        true
    }

    open spec fn mul_req(self, other: Vector2<S>) -> bool {
        true
    }

    open spec fn mul_spec(self, other: Vector2<S>) -> Vector2<S> {
        self.apply(other)
    }
}

impl<S: Scalar> Add<Vector3<S>> for Vector3<S> {
    type Output = Vector3<S>;

    fn add(self, other: Vector3<S>) -> (r: Vector3<S>) {
        Vector3::add(&self, &other)
    }
}

impl<S: Scalar> AddSpecImpl<Vector3<S>> for Vector3<S> {
    open spec fn obeys_add_spec() -> bool {
        true
    }

    open spec fn add_req(self, other: Vector3<S>) -> bool {
        true
    }

    open spec fn add_spec(self, other: Vector3<S>) -> Vector3<S> {
        self.plus(other)
    }
}

impl<S: Scalar> Sub<Vector3<S>> for Vector3<S> {
    type Output = Vector3<S>;

    fn sub(self, other: Vector3<S>) -> (r: Vector3<S>) {
        Vector3::sub(&self, &other)
    }
}

impl<S: Scalar> SubSpecImpl<Vector3<S>> for Vector3<S> {
    open spec fn obeys_sub_spec() -> bool {
        true
    }

    open spec fn sub_req(self, other: Vector3<S>) -> bool {
        true
    }

    open spec fn sub_spec(self, other: Vector3<S>) -> Vector3<S> {
        self.minus(other)
    }
}

impl<S: Scalar> Mul<S> for Vector3<S> {
    type Output = Vector3<S>;

    fn mul(self, other: S) -> (r: Vector3<S>) {
        Vector3::mul(&self, other)
    }
}

impl<S: Scalar> MulSpecImpl<S> for Vector3<S> {
    open spec fn obeys_mul_spec() -> bool {
        true
    }

    open spec fn mul_req(self, other: S) -> bool {
        true
    }

    open spec fn mul_spec(self, other: S) -> Vector3<S> {
        self.scaled(other)
    }
}

impl<S: Scalar> Div<S> for Vector3<S> {
    type Output = Vector3<S>;

    fn div(self, other: S) -> (r: Vector3<S>) {
        Vector3::div(&self, other)
    }
}

impl<S: Scalar> DivSpecImpl<S> for Vector3<S> {
    open spec fn obeys_div_spec() -> bool {
        true
    }

    open spec fn div_req(self, other: S) -> bool {
        true
    }

    open spec fn div_spec(self, other: S) -> Vector3<S> {
        self.unscaled(other)
    }
}

impl<S: ScalarSigned> Neg for Vector3<S> {
    type Output = Vector3<S>;

    fn neg(self) -> (r: Vector3<S>) {
        Vector3::neg(&self)
    }
}

impl<S: ScalarSigned> NegSpecImpl for Vector3<S> {
    open spec fn obeys_neg_spec() -> bool {
        true
    }

    open spec fn neg_req(self) -> bool {
        true
    }

    open spec fn neg_spec(self) -> Vector3<S> {
        self.negated()
    }
}

impl<S: Scalar> Add<Vector3<S>> for Point3<S> {
    type Output = Point3<S>;

    fn add(self, other: Vector3<S>) -> (r: Point3<S>) {
        Point3::add(&self, &other)
    }
}

impl<S: Scalar> AddSpecImpl<Vector3<S>> for Point3<S> {
    open spec fn obeys_add_spec() -> bool {
        true
    }

    open spec fn add_req(self, other: Vector3<S>) -> bool {
        true
    }

    open spec fn add_spec(self, other: Vector3<S>) -> Point3<S> {
        self.plus(other)
    }
}

impl<S: Scalar> Sub<Point3<S>> for Point3<S> {
    type Output = Vector3<S>;

    fn sub(self, other: Point3<S>) -> (r: Vector3<S>) {
        Point3::sub(&self, &other)
    }
}

impl<S: Scalar> SubSpecImpl<Point3<S>> for Point3<S> {
    open spec fn obeys_sub_spec() -> bool {
        true
    }

    open spec fn sub_req(self, other: Point3<S>) -> bool {
        true
    }

    open spec fn sub_spec(self, other: Point3<S>) -> Vector3<S> {
        self.minus(other)
    }
}

impl<S: Scalar> Mul<S> for Point3<S> {
    type Output = Point3<S>;

    fn mul(self, other: S) -> (r: Point3<S>) {
        Point3::mul(&self, other)
    }
}

impl<S: Scalar> MulSpecImpl<S> for Point3<S> {
    open spec fn obeys_mul_spec() -> bool {
        true
    }

    open spec fn mul_req(self, other: S) -> bool {
        true
    }

    open spec fn mul_spec(self, other: S) -> Point3<S> {
        self.scaled(other)
    }
}

impl<S: Scalar> Div<S> for Point3<S> {
    type Output = Point3<S>;

    fn div(self, other: S) -> (r: Point3<S>) {
        Point3::div(&self, other)
    }
}

impl<S: Scalar> DivSpecImpl<S> for Point3<S> {
    open spec fn obeys_div_spec() -> bool {
        true
    }

    open spec fn div_req(self, other: S) -> bool {
        true
    }

    open spec fn div_spec(self, other: S) -> Point3<S> {
        self.unscaled(other)
    }
}

impl<S: Scalar> Mul<Matrix3x3<S>> for Matrix3x3<S> {
    type Output = Matrix3x3<S>;

    fn mul(self, other: Matrix3x3<S>) -> (r: Matrix3x3<S>) {
        Matrix3x3::mul(&self, &other)
    }
}

impl<S: Scalar> MulSpecImpl<Matrix3x3<S>> for Matrix3x3<S> {
    open spec fn obeys_mul_spec() -> bool {
        true
    }

    open spec fn mul_req(self, other: Matrix3x3<S>) -> bool {
        true
    }

    open spec fn mul_spec(self, other: Matrix3x3<S>) -> Matrix3x3<S> {
        self.times(other)
    }
}

impl<S: Scalar> Mul<Vector3<S>> for Matrix3x3<S> {
    type Output = Vector3<S>;

    fn mul(self, other: Vector3<S>) -> (r: Vector3<S>) {
        self.mul_vector(&other)
    }
}

impl<S: Scalar> MulSpecImpl<Vector3<S>> for Matrix3x3<S> {
    open spec fn obeys_mul_spec() -> bool {
        true
    }

    open spec fn mul_req(self, other: Vector3<S>) -> bool {
        true
    }

    open spec fn mul_spec(self, other: Vector3<S>) -> Vector3<S> {
        self.apply(other)
    }
}

impl<S: Scalar> Mul<Matrix4x4<S>> for Matrix4x4<S> {
    type Output = Matrix4x4<S>;

    fn mul(self, other: Matrix4x4<S>) -> (r: Matrix4x4<S>) {
        Matrix4x4::mul(&self, &other)
    }
}

impl<S: Scalar> MulSpecImpl<Matrix4x4<S>> for Matrix4x4<S> {
    open spec fn obeys_mul_spec() -> bool {
        true
    }

    open spec fn mul_req(self, other: Matrix4x4<S>) -> bool {
        true
    }

    open spec fn mul_spec(self, other: Matrix4x4<S>) -> Matrix4x4<S> {
        self.times(other)
    }
}

impl<S: Scalar> Mul<Vector4<S>> for Matrix4x4<S> {
    type Output = Vector4<S>;

    fn mul(self, other: Vector4<S>) -> (r: Vector4<S>) {
        self.mul_vector(&other)
    }
}

impl<S: Scalar> MulSpecImpl<Vector4<S>> for Matrix4x4<S> {
    open spec fn obeys_mul_spec() -> bool {
        true
    }

    open spec fn mul_req(self, other: Vector4<S>) -> bool {
        true
    }

    open spec fn mul_spec(self, other: Vector4<S>) -> Vector4<S> {
        self.apply(other)
    }
}

} // verus!
