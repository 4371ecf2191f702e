//! Rigid motions: a rotation followed by a translation.

use crate::algebra::{
    lemma_apply2_identity, lemma_apply2_negated, lemma_apply2_plus, lemma_apply2_times,
    lemma_apply3_identity, lemma_apply3_negated, lemma_apply3_plus, lemma_apply3_times,
    lemma_negated_plus, lemma_times2_associates, lemma_times3_associates, lemma_times_zero,
    lemma_vector2_plus_associates, lemma_vector2_plus_commutes, lemma_vector2_plus_negated,
    lemma_vector3_plus_associates, lemma_vector3_plus_commutes, lemma_vector3_plus_negated,
};
use crate::angle::Radians;
use crate::matrix::{Matrix3x3, Matrix4x4};
use crate::point::{Point2, Point3};
use crate::rotation::{
    lemma_rotation2_identity_is_rotation, lemma_rotation2_inverse_is_rotation,
    lemma_rotation2_inverse_undoes, lemma_rotation2_product_is_orthogonal,
    lemma_rotation3_identity_is_rotation, lemma_rotation3_inverse_is_rotation,
    lemma_rotation3_inverse_undoes, lemma_rotation3_product_is_orthogonal, Rotation2, Rotation3,
};
use crate::scalar::{Field, Scalar, ScalarFloat, ScalarSigned};
use crate::transform::{AffineTransformation2D, AffineTransformation3D, Transform2D, Transform3D};
use crate::translation::{Translation2, Translation3};
use crate::unit::Unit;
use crate::vector::{Vector2, Vector3};
use vstd::prelude::*;

verus! {

/// A rigid motion of the plane: a rotation followed by a translation.
#[derive(Clone, Copy, Debug, PartialEq)]
pub struct Isometry2<S> {
    pub rotation: Rotation2<S>,
    pub translation: Translation2<S>,
}

impl<S: Scalar> Isometry2<S> {
    /// The motion that moves nothing.
    pub open spec fn identity_value() -> Self {
        Isometry2 { rotation: Rotation2::identity_value(), translation: Translation2::identity_value() }
    }

    /// The image of the vector `v`: vectors are rotated and not translated.
    pub open spec fn transform(self, v: Vector2<S>) -> Vector2<S> {
        self.rotation.rotate(v)
    }

    /// The image of the point `p`: rotated first, translated second.
    pub open spec fn transform_at(self, p: Point2<S>) -> Point2<S> {
        self.rotation.rotate_at(p).plus(self.translation.vector)
    }

    /// The vector that `self` sends to `v`, when the rotation is orthogonal.
    pub open spec fn inverse_transform(self, v: Vector2<S>) -> Vector2<S> {
        self.rotation.inverted().rotate(v)
    }

    /// The point that `self` sends to `p`, when the rotation is orthogonal:
    /// the translation is taken back first, the rotation second.
    pub open spec fn inverse_transform_at(self, p: Point2<S>) -> Point2<S> {
        self.rotation.inverted().rotate_at(Point2::at(p.position().minus(self.translation.vector)))
    }

    /// The composition that applies `other` first and `self` second. The
    /// translation of `other` is rotated into the frame of `self` before the
    /// two translations are added.
    pub open spec fn times(self, other: Self) -> Self {
        Isometry2 {
            rotation: self.rotation.times(other.rotation),
            translation: Translation2 {
                vector: self.translation.vector.plus(
                    self.rotation.rotate(other.translation.vector),
                ),
            },
        }
    }

    /// The motion is rigid: its rotation is orthogonal.
    pub open spec fn is_rigid(self) -> bool {
        self.rotation.is_orthogonal()
    }

    /// The homogeneous matrix of the motion: the rotation in the upper left
    /// block, the translation in the last column.
    pub open spec fn affine_matrix(self) -> Matrix3x3<S> {
        Matrix3x3 {
            c0r0: self.rotation.matrix.c0r0,
            c0r1: self.rotation.matrix.c0r1,
            c0r2: S::zero_value(),
            c1r0: self.rotation.matrix.c1r0,
            c1r1: self.rotation.matrix.c1r1,
            c1r2: S::zero_value(),
            c2r0: self.translation.vector.x,
            c2r1: self.translation.vector.y,
            c2r2: S::one_value(),
        }
    }

    /// Builds a motion from its translation and its rotation, both kept as
    /// they are.
    pub fn from_parts(translation: &Translation2<S>, rotation: &Rotation2<S>) -> (r: Self)
        ensures
            r == (Isometry2 { rotation: *rotation, translation: *translation }),
    {
        Isometry2 { rotation: *rotation, translation: *translation }
    }

    /// Builds the motion that only translates.
    pub fn from_translation(translation: &Translation2<S>) -> (r: Self)
        ensures
            r == (Isometry2 { rotation: Rotation2::identity_value(), translation: *translation }),
    {
        Isometry2 { rotation: Rotation2::identity(), translation: *translation }
    }

    /// Builds the motion that only rotates.
    pub fn from_rotation(rotation: &Rotation2<S>) -> (r: Self)
        ensures
            r == (Isometry2 { rotation: *rotation, translation: Translation2::identity_value() }),
    {
        Isometry2 { rotation: *rotation, translation: Translation2::identity() }
    }

    pub fn identity() -> (r: Self)
        ensures
            r == Self::identity_value(),
    {
        Isometry2 { rotation: Rotation2::identity(), translation: Translation2::identity() }
    }

    /// The rotation part.
    pub fn rotation(&self) -> (r: &Rotation2<S>)
        ensures
            *r == self.rotation,
    {
        &self.rotation
    }

    /// The translation part.
    pub fn translation(&self) -> (r: &Translation2<S>)
        ensures
            *r == self.translation,
    {
        &self.translation
    }

    /// Rotates the point, then translates it.
    pub fn transform_point(&self, point: &Point2<S>) -> (r: Point2<S>)
        ensures
            r == self.transform_at(*point),
    {
        let rotated = self.rotation.rotate_point(point);
        self.translation.translate_point(&rotated)
    }

    /// Rotates the vector. The translation does not act on vectors.
    pub fn transform_vector(&self, vector: &Vector2<S>) -> (r: Vector2<S>)
        ensures
            r == self.transform(*vector),
    {
        self.rotation.rotate_vector(vector)
    }

    /// Takes the translation back from the point, then the rotation.
    pub fn inverse_transform_point(&self, point: &Point2<S>) -> (r: Point2<S>)
        ensures
            r == self.inverse_transform_at(*point),
    {
        let shifted = self.translation.inverse_translate_point(point);
        self.rotation.inverse_rotate_point(&shifted)
    }

    /// Takes the rotation back from the vector.
    pub fn inverse_transform_vector(&self, vector: &Vector2<S>) -> (r: Vector2<S>)
        ensures
            r == self.inverse_transform(*vector),
    {
        self.rotation.inverse_rotate_vector(vector)
    }

    /// Composes two motions: the result applies `other` first.
    pub fn mul(&self, other: &Self) -> (r: Self)
        ensures
            r == self.times(*other),
    {
        let shift = self.rotation.rotate_vector(&other.translation.vector);
        Isometry2 {
            rotation: self.rotation.mul(&other.rotation),
            translation: Translation2 { vector: self.translation.vector.add(&shift) },
        }
    }

    /// Applies the motion to a point; another name for
    /// [`Isometry2::transform_point`].
    pub fn mul_point(&self, point: &Point2<S>) -> (r: Point2<S>)
        ensures
            r == self.transform_at(*point),
    {
        self.transform_point(point)
    }

    /// Writes the motion as a homogeneous matrix.
    pub fn to_affine_matrix(&self) -> (r: Matrix3x3<S>)
        ensures
            r == self.affine_matrix(),
    {
        Matrix3x3 {
            c0r0: self.rotation.matrix.c0r0,
            c0r1: self.rotation.matrix.c0r1,
            c0r2: S::zero(),
            c1r0: self.rotation.matrix.c1r0,
            c1r1: self.rotation.matrix.c1r1,
            c1r2: S::zero(),
            c2r0: self.translation.vector.x,
            c2r1: self.translation.vector.y,
            c2r2: S::one(),
        }
    }
}

impl<S: ScalarSigned> Isometry2<S> {
    /// The inverse motion: the transposed rotation `R'`, and the translation
    /// `-(R' t)`, which is the old translation taken back in the new frame.
    pub open spec fn inverted(self) -> Self {
        Isometry2 {
            rotation: self.rotation.inverted(),
            translation: Translation2 {
                vector: self.rotation.inverted().rotate(self.translation.vector).negated(),
            },
        }
    }

    /// The inverse motion.
    pub fn inverse(&self) -> (r: Self)
        ensures
            r == self.inverted(),
    {
        let mut result = *self;
        result.inverse_mut();
        result
    }

    /// Replaces the motion by its inverse.
    pub fn inverse_mut(&mut self)
        ensures
            *final(self) == old(self).inverted(),
    {
        let rotation = self.rotation.inverse();
        let vector = rotation.rotate_vector(&self.translation.vector).neg();
        self.rotation = rotation;
        self.translation = Translation2 { vector };
    }
}

impl<S: ScalarFloat> Isometry2<S> {
    /// Builds the motion that rotates by `angle` about the origin.
    pub fn from_angle(angle: Radians<S>) -> (r: Self)
        ensures
            r == (Isometry2 {
                rotation: Rotation2::from_angle_value(angle),
                translation: Translation2::identity_value(),
            }),
    {
        Isometry2 { rotation: Rotation2::from_angle(angle), translation: Translation2::identity() }
    }

    /// Builds the motion that rotates by `angle` about the origin and then
    /// translates by `distance`.
    pub fn from_angle_translation(angle: Radians<S>, distance: &Vector2<S>) -> (r: Self)
        ensures
            r == (Isometry2 {
                rotation: Rotation2::from_angle_value(angle),
                translation: Translation2 { vector: *distance },
            }),
    {
        Isometry2 {
            rotation: Rotation2::from_angle(angle),
            translation: Translation2 { vector: *distance },
        }
    }
}

/// A rigid motion of space: a rotation followed by a translation.
#[derive(Clone, Copy, Debug, PartialEq)]
pub struct Isometry3<S> {
    pub rotation: Rotation3<S>,
    pub translation: Translation3<S>,
}

impl<S: Scalar> Isometry3<S> {
    /// The motion that moves nothing.
    pub open spec fn identity_value() -> Self {
        Isometry3 { rotation: Rotation3::identity_value(), translation: Translation3::identity_value() }
    }

    /// The image of the vector `v`: vectors are rotated and not translated.
    pub open spec fn transform(self, v: Vector3<S>) -> Vector3<S> {
        self.rotation.rotate(v)
    }

    /// The image of the point `p`: rotated first, translated second.
    pub open spec fn transform_at(self, p: Point3<S>) -> Point3<S> {
        self.rotation.rotate_at(p).plus(self.translation.vector)
    }

    /// The vector that `self` sends to `v`, when the rotation is orthogonal.
    pub open spec fn inverse_transform(self, v: Vector3<S>) -> Vector3<S> {
        self.rotation.inverted().rotate(v)
    }

    /// The point that `self` sends to `p`, when the rotation is orthogonal:
    /// the translation is taken back first, the rotation second.
    pub open spec fn inverse_transform_at(self, p: Point3<S>) -> Point3<S> {
        self.rotation.inverted().rotate_at(Point3::at(p.position().minus(self.translation.vector)))
    }

    /// The composition that applies `other` first and `self` second. The
    /// translation of `other` is rotated into the frame of `self` before the
    /// two translations are added.
    pub open spec fn times(self, other: Self) -> Self {
        Isometry3 {
            rotation: self.rotation.times(other.rotation),
            translation: Translation3 {
                vector: self.translation.vector.plus(
                    self.rotation.rotate(other.translation.vector),
                ),
            },
        }
    }

    /// The motion is rigid: its rotation is orthogonal.
    pub open spec fn is_rigid(self) -> bool {
        self.rotation.is_orthogonal()
    }

    /// The homogeneous matrix of the motion: the rotation in the upper left
    /// block, the translation in the last column.
    pub open spec fn affine_matrix(self) -> Matrix4x4<S> {
        Matrix4x4 {
            c0r0: self.rotation.matrix.c0r0,
            c0r1: self.rotation.matrix.c0r1,
            c0r2: self.rotation.matrix.c0r2,
            c0r3: S::zero_value(),
            c1r0: self.rotation.matrix.c1r0,
            c1r1: self.rotation.matrix.c1r1,
            c1r2: self.rotation.matrix.c1r2,
            c1r3: S::zero_value(),
            c2r0: self.rotation.matrix.c2r0,
            c2r1: self.rotation.matrix.c2r1,
            c2r2: self.rotation.matrix.c2r2,
            c2r3: S::zero_value(),
            c3r0: self.translation.vector.x,
            c3r1: self.translation.vector.y,
            c3r2: self.translation.vector.z,
            c3r3: S::one_value(),
        }
    }

    /// Builds a motion from its translation and its rotation, both kept as
    /// they are.
    pub fn from_parts(translation: &Translation3<S>, rotation: &Rotation3<S>) -> (r: Self)
        ensures
            r == (Isometry3 { rotation: *rotation, translation: *translation }),
    {
        Isometry3 { rotation: *rotation, translation: *translation }
    }

    /// Builds the motion that only translates.
    pub fn from_translation(translation: &Translation3<S>) -> (r: Self)
        ensures
            r == (Isometry3 { rotation: Rotation3::identity_value(), translation: *translation }),
    {
        Isometry3 { rotation: Rotation3::identity(), translation: *translation }
    }

    /// Builds the motion that only rotates.
    pub fn from_rotation(rotation: &Rotation3<S>) -> (r: Self)
        ensures
            r == (Isometry3 { rotation: *rotation, translation: Translation3::identity_value() }),
    {
        Isometry3 { rotation: *rotation, translation: Translation3::identity() }
    }

    pub fn identity() -> (r: Self)
        ensures
            r == Self::identity_value(),
    {
        Isometry3 { rotation: Rotation3::identity(), translation: Translation3::identity() }
    }

    /// The rotation part.
    pub fn rotation(&self) -> (r: &Rotation3<S>)
        ensures
            *r == self.rotation,
    {
        &self.rotation
    }

    /// The translation part.
    pub fn translation(&self) -> (r: &Translation3<S>)
        ensures
            *r == self.translation,
    {
        &self.translation
    }

    /// Rotates the point, then translates it.
    pub fn transform_point(&self, point: &Point3<S>) -> (r: Point3<S>)
        ensures
            r == self.transform_at(*point),
    {
        let rotated = self.rotation.rotate_point(point);
        self.translation.translate_point(&rotated)
    }

    /// Rotates the vector. The translation does not act on vectors.
    pub fn transform_vector(&self, vector: &Vector3<S>) -> (r: Vector3<S>)
        ensures
            r == self.transform(*vector),
    {
        self.rotation.rotate_vector(vector)
    }

    /// Takes the translation back from the point, then the rotation.
    pub fn inverse_transform_point(&self, point: &Point3<S>) -> (r: Point3<S>)
        ensures
            r == self.inverse_transform_at(*point),
    {
        let shifted = self.translation.inverse_translate_point(point);
        self.rotation.inverse_rotate_point(&shifted)
    }

    /// Takes the rotation back from the vector.
    pub fn inverse_transform_vector(&self, vector: &Vector3<S>) -> (r: Vector3<S>)
        ensures
            r == self.inverse_transform(*vector),
    {
        self.rotation.inverse_rotate_vector(vector)
    }

    /// Composes two motions: the result applies `other` first.
    pub fn mul(&self, other: &Self) -> (r: Self)
        ensures
            r == self.times(*other),
    {
        let shift = self.rotation.rotate_vector(&other.translation.vector);
        Isometry3 {
            rotation: self.rotation.mul(&other.rotation),
            translation: Translation3 { vector: self.translation.vector.add(&shift) },
        }
    }

    /// Applies the motion to a point; another name for
    /// [`Isometry3::transform_point`].
    pub fn mul_point(&self, point: &Point3<S>) -> (r: Point3<S>)
        ensures
            r == self.transform_at(*point),
    {
        self.transform_point(point)
    }

    /// Writes the motion as a homogeneous matrix.
    pub fn to_affine_matrix(&self) -> (r: Matrix4x4<S>)
        ensures
            r == self.affine_matrix(),
    {
        Matrix4x4 {
            c0r0: self.rotation.matrix.c0r0,
            c0r1: self.rotation.matrix.c0r1,
            c0r2: self.rotation.matrix.c0r2,
            c0r3: S::zero(),
            c1r0: self.rotation.matrix.c1r0,
            c1r1: self.rotation.matrix.c1r1,
            c1r2: self.rotation.matrix.c1r2,
            c1r3: S::zero(),
            c2r0: self.rotation.matrix.c2r0,
            c2r1: self.rotation.matrix.c2r1,
            c2r2: self.rotation.matrix.c2r2,
            c2r3: S::zero(),
            c3r0: self.translation.vector.x,
            c3r1: self.translation.vector.y,
            c3r2: self.translation.vector.z,
            c3r3: S::one(),
        }
    }
}

impl<S: ScalarSigned> Isometry3<S> {
    /// The inverse motion: the transposed rotation `R'`, and the translation
    /// `-(R' t)`, which is the old translation taken back in the new frame.
    pub open spec fn inverted(self) -> Self {
        Isometry3 {
            rotation: self.rotation.inverted(),
            translation: Translation3 {
                vector: self.rotation.inverted().rotate(self.translation.vector).negated(),
            },
        }
    }

    /// The inverse motion.
    pub fn inverse(&self) -> (r: Self)
        ensures
            r == self.inverted(),
    {
        let mut result = *self;
        result.inverse_mut();
        result
    }

    /// Replaces the motion by its inverse.
    pub fn inverse_mut(&mut self)
        ensures
            *final(self) == old(self).inverted(),
    {
        let rotation = self.rotation.inverse();
        let vector = rotation.rotate_vector(&self.translation.vector).neg();
        self.rotation = rotation;
        self.translation = Translation3 { vector };
    }
}

impl<S: ScalarFloat> Isometry3<S> {
    /// The view motion with the given rotation: it carries `eye` to the
    /// origin.
    pub open spec fn view_of(rotation: Rotation3<S>, eye: Point3<S>) -> Self {
        Isometry3 {
            rotation,
            translation: Translation3 { vector: rotation.rotate(eye.position()).negated() },
        }
    }

    /// The left-handed view motion: `eye` goes to the origin and `direction`
    /// to the positive z-axis.
    pub open spec fn look_to_lh_value(
        eye: Point3<S>,
        direction: Vector3<S>,
        up: Vector3<S>,
    ) -> Self {
        Self::view_of(Rotation3::look_to_lh_value(direction, up), eye)
    }

    /// The right-handed view motion: `eye` goes to the origin and
    /// `direction` to the negative z-axis.
    pub open spec fn look_to_rh_value(
        eye: Point3<S>,
        direction: Vector3<S>,
        up: Vector3<S>,
    ) -> Self {
        Self::view_of(Rotation3::look_to_rh_value(direction, up), eye)
    }

    /// The inverse of the left-handed view motion: the origin goes to `eye`
    /// and the positive z-axis to `direction`.
    pub open spec fn look_to_lh_inv_value(
        eye: Point3<S>,
        direction: Vector3<S>,
        up: Vector3<S>,
    ) -> Self {
        Isometry3 {
            rotation: Rotation3::look_to_lh_inv_value(direction, up),
            translation: Translation3 { vector: eye.position() },
        }
    }

    /// The inverse of the right-handed view motion: the origin goes to `eye`
    /// and the negative z-axis to `direction`.
    pub open spec fn look_to_rh_inv_value(
        eye: Point3<S>,
        direction: Vector3<S>,
        up: Vector3<S>,
    ) -> Self {
        Isometry3 {
            rotation: Rotation3::look_to_rh_inv_value(direction, up),
            translation: Translation3 { vector: eye.position() },
        }
    }

    /// Builds the motion that rotates by `angle` about `axis`.
    pub fn from_axis_angle(axis: &Unit<Vector3<S>>, angle: Radians<S>) -> (r: Self)
        ensures
            r == (Isometry3 {
                rotation: Rotation3::from_axis_angle_value(*axis, angle),
                translation: Translation3::identity_value(),
            }),
    {
        Isometry3 {
            rotation: Rotation3::from_axis_angle(axis, angle),
            translation: Translation3::identity(),
        }
    }

    /// Builds the motion that rotates by `angle` about `axis` and then
    /// translates by `distance`.
    pub fn from_axis_angle_translation(
        axis: &Unit<Vector3<S>>,
        angle: Radians<S>,
        distance: &Vector3<S>,
    ) -> (r: Self)
        ensures
            r == (Isometry3 {
                rotation: Rotation3::from_axis_angle_value(*axis, angle),
                translation: Translation3 { vector: *distance },
            }),
    {
        Isometry3 {
            rotation: Rotation3::from_axis_angle(axis, angle),
            translation: Translation3 { vector: *distance },
        }
    }

    fn view(rotation: Rotation3<S>, eye: &Point3<S>) -> (r: Self)
        ensures
            r == Self::view_of(rotation, *eye),
    {
        let vector = rotation.rotate_vector(&eye.to_vector()).neg();
        Isometry3 { rotation, translation: Translation3 { vector } }
    }

    /// Builds the left-handed view motion of an observer at `eye` who looks
    /// along `direction`. `direction` and `up` must not be parallel.
    pub fn look_to_lh(eye: &Point3<S>, direction: &Vector3<S>, up: &Vector3<S>) -> (r: Self)
        ensures
            r == Self::look_to_lh_value(*eye, *direction, *up),
    {
        Self::view(Rotation3::look_to_lh(direction, up), eye)
    }

    /// Builds the right-handed view motion of an observer at `eye` who looks
    /// along `direction`. `direction` and `up` must not be parallel.
    pub fn look_to_rh(eye: &Point3<S>, direction: &Vector3<S>, up: &Vector3<S>) -> (r: Self)
        ensures
            r == Self::look_to_rh_value(*eye, *direction, *up),
    {
        Self::view(Rotation3::look_to_rh(direction, up), eye)
    }

    /// Builds the left-handed view motion of an observer at `eye` who looks
    /// at `target`. The line of sight and `up` must not be parallel.
    pub fn look_at_lh(eye: &Point3<S>, target: &Point3<S>, up: &Vector3<S>) -> (r: Self)
        ensures
            r == Self::look_to_lh_value(*eye, target.minus(*eye), *up),
    {
        Self::look_to_lh(eye, &target.sub(eye), up)
    }

    /// Builds the right-handed view motion of an observer at `eye` who looks
    /// at `target`. The line of sight and `up` must not be parallel.
    pub fn look_at_rh(eye: &Point3<S>, target: &Point3<S>, up: &Vector3<S>) -> (r: Self)
        ensures
            r == Self::look_to_rh_value(*eye, target.minus(*eye), *up),
    {
        Self::look_to_rh(eye, &target.sub(eye), up)
    }

    /// Builds the inverse of the left-handed view motion for `direction`.
    pub fn look_to_lh_inv(eye: &Point3<S>, direction: &Vector3<S>, up: &Vector3<S>) -> (r: Self)
        ensures
            r == Self::look_to_lh_inv_value(*eye, *direction, *up),
    {
        Isometry3 {
            rotation: Rotation3::look_to_lh_inv(direction, up),
            translation: Translation3 { vector: eye.to_vector() },
        }
    }

    /// Builds the inverse of the right-handed view motion for `direction`.
    pub fn look_to_rh_inv(eye: &Point3<S>, direction: &Vector3<S>, up: &Vector3<S>) -> (r: Self)
        ensures
            r == Self::look_to_rh_inv_value(*eye, *direction, *up),
    {
        Isometry3 {
            rotation: Rotation3::look_to_rh_inv(direction, up),
            translation: Translation3 { vector: eye.to_vector() },
        }
    }

    /// Builds the inverse of the left-handed view motion for `target`.
    pub fn look_at_lh_inv(eye: &Point3<S>, target: &Point3<S>, up: &Vector3<S>) -> (r: Self)
        ensures
            r == Self::look_to_lh_inv_value(*eye, target.minus(*eye), *up),
    {
        Self::look_to_lh_inv(eye, &target.sub(eye), up)
    }

    /// Builds the inverse of the right-handed view motion for `target`.
    pub fn look_at_rh_inv(eye: &Point3<S>, target: &Point3<S>, up: &Vector3<S>) -> (r: Self)
        ensures
            r == Self::look_to_rh_inv_value(*eye, target.minus(*eye), *up),
    {
        Self::look_to_rh_inv(eye, &target.sub(eye), up)
    }

    /// Builds the motion that places an observer at `eye` facing `target`:
    /// the positive z-axis goes to the line of sight and the origin to `eye`.
    pub fn face_towards(eye: &Point3<S>, target: &Point3<S>, up: &Vector3<S>) -> (r: Self)
        ensures
            r == Self::look_to_lh_inv_value(*eye, target.minus(*eye), *up),
    {
        Self::look_at_lh_inv(eye, target, up)
    }
}

/// The identity is rigid, and so are the inverse of a rigid motion and the
/// composition of two.
pub proof fn lemma_isometry2_stays_rigid<S: Field>(a: Isometry2<S>, b: Isometry2<S>)
    requires
        a.is_rigid(),
        b.is_rigid(),
    ensures
        Isometry2::<S>::identity_value().is_rigid(),
        a.inverted().is_rigid(),
        a.times(b).is_rigid(),
{
    lemma_rotation2_identity_is_rotation::<S>();
    lemma_rotation2_inverse_is_rotation(a.rotation);
    lemma_rotation2_product_is_orthogonal(a.rotation, b.rotation);
}

/// The identity motion fixes every point and every vector.
pub proof fn lemma_isometry2_identity_fixes<S: Field>(p: Point2<S>, v: Vector2<S>)
    ensures
        Isometry2::<S>::identity_value().transform_at(p) == p,
        Isometry2::<S>::identity_value().transform(v) == v,
{
    lemma_apply2_identity(p.position());
    lemma_apply2_identity(v);
    S::law_plus_zero(p.x);
    S::law_plus_zero(p.y);
}

/// A motion followed by its inverse fixes every point, and so does the
/// inverse followed by the motion.
pub proof fn lemma_isometry2_inverse_undoes<S: Field>(i: Isometry2<S>, p: Point2<S>)
    requires
        i.is_rigid(),
    ensures
        i.inverted().transform_at(i.transform_at(p)) == p,
        i.transform_at(i.inverted().transform_at(p)) == p,
{
    let m = i.rotation.matrix;
    let mt = m.transposed();
    let t = i.translation.vector;
    let x = p.position();
    // R'(R x + t) + -(R' t) = (R'(R x) + R' t) + -(R' t) = x
    lemma_apply2_plus(mt, m.apply(x), t);
    lemma_vector2_plus_negated(mt.apply(m.apply(x)), mt.apply(t));
    lemma_rotation2_inverse_undoes(i.rotation, x);
    // R(R' x + -(R' t)) + t = (x + -t) + t = x
    lemma_apply2_plus(m, mt.apply(x), mt.apply(t).negated());
    lemma_apply2_negated(m, mt.apply(t));
    lemma_rotation2_inverse_undoes(i.rotation, t);
    lemma_vector2_plus_associates(x, t.negated(), t);
    lemma_negated_plus(t.x);
    lemma_negated_plus(t.y);
    S::law_plus_zero(x.x);
    S::law_plus_zero(x.y);
}

/// The inverse motion applied to a point is what `inverse_transform_at`
/// computes without building the inverse.
pub proof fn lemma_isometry2_inverse_transform_agrees<S: Field>(i: Isometry2<S>, p: Point2<S>)
    ensures
        i.inverse_transform_at(p) == i.inverted().transform_at(p),
        i.inverse_transform(p.position()) == i.inverted().transform(p.position()),
{
    let mt = i.rotation.matrix.transposed();
    let t = i.translation.vector;
    let x = p.position();
    S::law_minus(x.x, t.x);
    S::law_minus(x.y, t.y);
    lemma_apply2_plus(mt, x, t.negated());
    lemma_apply2_negated(mt, t);
}

/// Composition agrees with application: the composed motion sends a point to
/// where the two motions send it in turn.
pub proof fn lemma_isometry2_times_applies<S: Field>(a: Isometry2<S>, b: Isometry2<S>, p: Point2<S>)
    ensures
        a.times(b).transform_at(p) == a.transform_at(b.transform_at(p)),
        a.times(b).transform(p.position()) == a.transform(b.transform(p.position())),
{
    let x = p.position();
    let (m, n) = (a.rotation.matrix, b.rotation.matrix);
    let (s, t) = (a.translation.vector, b.translation.vector);
    lemma_apply2_times(m, n, x);
    lemma_apply2_plus(m, n.apply(x), t);
    lemma_vector2_plus_associates(m.apply(n.apply(x)), m.apply(t), s);
    lemma_vector2_plus_commutes(m.apply(t), s);
}

/// The homogeneous matrix of a motion acts on points and on vectors as the
/// motion does.
pub proof fn lemma_isometry2_affine_matrix_applies<S: Field>(
    i: Isometry2<S>,
    p: Point2<S>,
    v: Vector2<S>,
)
    ensures
        (Transform2D { matrix: i.affine_matrix() }).apply_to_point(p) == i.transform_at(p),
        (Transform2D { matrix: i.affine_matrix() }).apply_to_vector(v) == i.transform(v),
{
    let t = i.translation.vector;
    let w = i.rotation.rotate(v);
    S::law_times_one(t.x);
    S::law_times_one(t.y);
    lemma_times_zero(t.x);
    lemma_times_zero(t.y);
    S::law_plus_zero(w.x);
    S::law_plus_zero(w.y);
}

/// Composition of motions is associative.
pub proof fn lemma_isometry2_times_associates<S: Field>(a: Isometry2<S>, b: Isometry2<S>, c: Isometry2<S>)
    ensures
        a.times(b).times(c) == a.times(b.times(c)),
{
    let (ra, rb, rc) = (a.rotation.matrix, b.rotation.matrix, c.rotation.matrix);
    let (ta, tb, tc) = (a.translation.vector, b.translation.vector, c.translation.vector);
    lemma_times2_associates(ra, rb, rc);
    lemma_apply2_times(ra, rb, tc);
    lemma_apply2_plus(ra, tb, rb.apply(tc));
    lemma_vector2_plus_associates(ta, ra.apply(tb), ra.apply(rb.apply(tc)));
}

/// The identity is rigid, and so are the inverse of a rigid motion and the
/// composition of two.
pub proof fn lemma_isometry3_stays_rigid<S: Field>(a: Isometry3<S>, b: Isometry3<S>)
    requires
        a.is_rigid(),
        b.is_rigid(),
    ensures
        Isometry3::<S>::identity_value().is_rigid(),
        a.inverted().is_rigid(),
        a.times(b).is_rigid(),
{
    lemma_rotation3_identity_is_rotation::<S>();
    lemma_rotation3_inverse_is_rotation(a.rotation);
    lemma_rotation3_product_is_orthogonal(a.rotation, b.rotation);
}

/// The identity motion fixes every point and every vector.
pub proof fn lemma_isometry3_identity_fixes<S: Field>(p: Point3<S>, v: Vector3<S>)
    ensures
        Isometry3::<S>::identity_value().transform_at(p) == p,
        Isometry3::<S>::identity_value().transform(v) == v,
{
    lemma_apply3_identity(p.position());
    lemma_apply3_identity(v);
    S::law_plus_zero(p.x);
    S::law_plus_zero(p.y);
    S::law_plus_zero(p.z);
}

/// A motion followed by its inverse fixes every point, and so does the
/// inverse followed by the motion.
pub proof fn lemma_isometry3_inverse_undoes<S: Field>(i: Isometry3<S>, p: Point3<S>)
    requires
        i.is_rigid(),
    ensures
        i.inverted().transform_at(i.transform_at(p)) == p,
        i.transform_at(i.inverted().transform_at(p)) == p,
{
    let m = i.rotation.matrix;
    let mt = m.transposed();
    let t = i.translation.vector;
    let x = p.position();
    // R'(R x + t) + -(R' t) = (R'(R x) + R' t) + -(R' t) = x
    lemma_apply3_plus(mt, m.apply(x), t);
    lemma_vector3_plus_negated(mt.apply(m.apply(x)), mt.apply(t));
    lemma_rotation3_inverse_undoes(i.rotation, x);
    // R(R' x + -(R' t)) + t = (x + -t) + t = x
    lemma_apply3_plus(m, mt.apply(x), mt.apply(t).negated());
    lemma_apply3_negated(m, mt.apply(t));
    lemma_rotation3_inverse_undoes(i.rotation, t);
    lemma_vector3_plus_associates(x, t.negated(), t);
    lemma_negated_plus(t.x);
    lemma_negated_plus(t.y);
    lemma_negated_plus(t.z);
    S::law_plus_zero(x.x);
    S::law_plus_zero(x.y);
    S::law_plus_zero(x.z);
}

/// The inverse motion applied to a point is what `inverse_transform_at`
/// computes without building the inverse.
pub proof fn lemma_isometry3_inverse_transform_agrees<S: Field>(i: Isometry3<S>, p: Point3<S>)
    ensures
        i.inverse_transform_at(p) == i.inverted().transform_at(p),
        i.inverse_transform(p.position()) == i.inverted().transform(p.position()),
{
    let mt = i.rotation.matrix.transposed();
    let t = i.translation.vector;
    let x = p.position();
    S::law_minus(x.x, t.x);
    S::law_minus(x.y, t.y);
    S::law_minus(x.z, t.z);
    lemma_apply3_plus(mt, x, t.negated());
    lemma_apply3_negated(mt, t);
}

/// Composition agrees with application: the composed motion sends a point to
/// where the two motions send it in turn.
pub proof fn lemma_isometry3_times_applies<S: Field>(a: Isometry3<S>, b: Isometry3<S>, p: Point3<S>)
    ensures
        a.times(b).transform_at(p) == a.transform_at(b.transform_at(p)),
        a.times(b).transform(p.position()) == a.transform(b.transform(p.position())),
{
    let x = p.position();
    let (m, n) = (a.rotation.matrix, b.rotation.matrix);
    let (s, t) = (a.translation.vector, b.translation.vector);
    lemma_apply3_times(m, n, x);
    lemma_apply3_plus(m, n.apply(x), t);
    lemma_vector3_plus_associates(m.apply(n.apply(x)), m.apply(t), s);
    lemma_vector3_plus_commutes(m.apply(t), s);
}

/// The homogeneous matrix of a motion acts on points and on vectors as the
/// motion does.
pub proof fn lemma_isometry3_affine_matrix_applies<S: Field>(
    i: Isometry3<S>,
    p: Point3<S>,
    v: Vector3<S>,
)
    ensures
        (Transform3D { matrix: i.affine_matrix() }).apply_to_point(p) == i.transform_at(p),
        (Transform3D { matrix: i.affine_matrix() }).apply_to_vector(v) == i.transform(v),
{
    let t = i.translation.vector;
    let w = i.rotation.rotate(v);
    S::law_times_one(t.x);
    S::law_times_one(t.y);
    S::law_times_one(t.z);
    lemma_times_zero(t.x);
    lemma_times_zero(t.y);
    lemma_times_zero(t.z);
    S::law_plus_zero(w.x);
    S::law_plus_zero(w.y);
    S::law_plus_zero(w.z);
}

/// Composition of motions is associative.
pub proof fn lemma_isometry3_times_associates<S: Field>(a: Isometry3<S>, b: Isometry3<S>, c: Isometry3<S>)
    ensures
        a.times(b).times(c) == a.times(b.times(c)),
{
    let (ra, rb, rc) = (a.rotation.matrix, b.rotation.matrix, c.rotation.matrix);
    let (ta, tb, tc) = (a.translation.vector, b.translation.vector, c.translation.vector);
    lemma_times3_associates(ra, rb, rc);
    lemma_apply3_times(ra, rb, tc);
    lemma_apply3_plus(ra, tb, rb.apply(tc));
    lemma_vector3_plus_associates(ta, ra.apply(tb), ra.apply(rb.apply(tc)));
}

} // verus!
