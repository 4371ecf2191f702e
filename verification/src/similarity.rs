//! Similarities: a uniform scaling followed by a rigid motion.

use crate::algebra::{
    lemma_apply2_plus, lemma_apply2_scaled, lemma_apply2_times, lemma_apply3_plus,
    lemma_apply3_scaled, lemma_apply3_times, lemma_factor_moves, lemma_product_is_not_zero,
    lemma_reciprocal_is_not_zero, lemma_times2_associates, lemma_times3_associates,
    lemma_times_zero, lemma_vector2_negated_scaled, lemma_vector2_plus_associates,
    lemma_vector2_plus_commutes, lemma_vector2_plus_negated, lemma_vector2_scaled_one,
    lemma_vector2_scaled_plus, lemma_vector2_scaled_twice, lemma_vector3_negated_scaled,
    lemma_vector3_plus_associates, lemma_vector3_plus_commutes, lemma_vector3_plus_negated,
    lemma_vector3_scaled_one, lemma_vector3_scaled_plus, lemma_vector3_scaled_twice,
};
use crate::angle::Radians;
use crate::isometry::{
    lemma_isometry2_identity_fixes, lemma_isometry2_stays_rigid, lemma_isometry3_identity_fixes,
    lemma_isometry3_stays_rigid, Isometry2, Isometry3,
};
use crate::matrix::{Matrix3x3, Matrix4x4};
use crate::point::{Point2, Point3};
use crate::rotation::{
    lemma_rotation2_inverse_undoes, lemma_rotation3_inverse_undoes, Rotation2, Rotation3,
};
use crate::scalar::{Field, Scalar, ScalarFloat, ScalarSigned};
use crate::transform::{
    lemma_transform2d_times_applies, lemma_transform3d_times_applies, AffineTransformation2D,
    AffineTransformation3D, Transform2D, Transform3D,
};
use crate::translation::{Translation2, Translation3};
use crate::unit::Unit;
use crate::vector::{Vector2, Vector3};
use vstd::prelude::*;

verus! {

/// A similarity of the plane: a uniform scaling, followed by a rotation,
/// followed by a translation.
#[derive(Clone, Copy, Debug, PartialEq)]
pub struct Similarity2<S> {
    /// The rigid motion applied after the scaling.
    pub isometry: Isometry2<S>,
    /// The uniform scale factor.
    pub scale: S,
}

impl<S: Scalar> Similarity2<S> {
    /// The similarity that moves nothing.
    pub open spec fn identity_value() -> Self {
        Similarity2 { isometry: Isometry2::identity_value(), scale: S::one_value() }
    }

    /// The image of the vector `v`: scaled first, rotated second, and not
    /// translated.
    pub open spec fn transform(self, v: Vector2<S>) -> Vector2<S> {
        self.isometry.transform(v.scaled(self.scale))
    }

    /// The image of the point `p`: scaled first, rotated second, translated
    /// last.
    pub open spec fn transform_at(self, p: Point2<S>) -> Point2<S> {
        self.isometry.transform_at(p.scaled(self.scale))
    }

    /// The vector that `self` sends to `v`: the rigid motion is taken back
    /// first, the scaling last.
    pub open spec fn inverse_transform(self, v: Vector2<S>) -> Vector2<S> {
        self.isometry.inverse_transform(v).unscaled(self.scale)
    }

    /// The point that `self` sends to `p`: the rigid motion is taken back
    /// first, the scaling last.
    pub open spec fn inverse_transform_at(self, p: Point2<S>) -> Point2<S> {
        self.isometry.inverse_transform_at(p).unscaled(self.scale)
    }

    /// The composition with a rigid motion that is applied first. The
    /// translation of `other` is rotated into the frame of `self` and
    /// stretched by the scale of `self` before the translations are added.
    pub open spec fn times_isometry(self, other: Isometry2<S>) -> Self {
        Similarity2 {
            isometry: Isometry2 {
                rotation: self.isometry.rotation.times(other.rotation),
                translation: Translation2 {
                    vector: self.isometry.translation.vector.plus(
                        self.isometry.rotation.rotate(other.translation.vector).scaled(self.scale),
                    ),
                },
            },
            scale: self.scale,
        }
    }

    /// The composition that applies `other` first and `self` second: the
    /// composition with the rigid motion of `other`, with the two scales
    /// multiplied.
    pub open spec fn times(self, other: Self) -> Self {
        Similarity2 {
            isometry: self.times_isometry(other.isometry).isometry,
            scale: self.scale.times(other.scale),
        }
    }

    /// The similarity can be inverted: its motion is rigid and its scale is
    /// not zero.
    pub open spec fn is_invertible(self) -> bool {
        &&& self.isometry.is_rigid()
        &&& !self.scale.vanishes()
    }

    /// The homogeneous matrix of the similarity: the scale times the
    /// rotation in the upper left block, the translation in the last column.
    pub open spec fn affine_matrix(self) -> Matrix3x3<S> {
        Matrix3x3 {
            c0r0: self.scale.times(self.isometry.rotation.matrix.c0r0),
            c0r1: self.scale.times(self.isometry.rotation.matrix.c0r1),
            c0r2: S::zero_value(),
            c1r0: self.scale.times(self.isometry.rotation.matrix.c1r0),
            c1r1: self.scale.times(self.isometry.rotation.matrix.c1r1),
            c1r2: S::zero_value(),
            c2r0: self.isometry.translation.vector.x,
            c2r1: self.isometry.translation.vector.y,
            c2r2: S::one_value(),
        }
    }

    /// Builds a similarity from its translation, rotation and scale, all
    /// kept as they are.
    pub fn from_parts(translation: &Translation2<S>, rotation: &Rotation2<S>, scale: S) -> (r: Self)
        ensures
            r == (Similarity2 {
                isometry: Isometry2 { rotation: *rotation, translation: *translation },
                scale,
            }),
    {
        Similarity2 { isometry: Isometry2::from_parts(translation, rotation), scale }
    }

    /// Builds the similarity that only rotates.
    pub fn from_rotation(rotation: &Rotation2<S>) -> (r: Self)
        ensures
            r == (Similarity2 {
                isometry: Isometry2 { rotation: *rotation, translation: Translation2::identity_value() },
                scale: S::one_value(),
            }),
    {
        Similarity2 { isometry: Isometry2::from_rotation(rotation), scale: S::one() }
    }

    /// Builds the similarity that only scales.
    pub fn from_scale(scale: S) -> (r: Self)
        ensures
            r == (Similarity2 { isometry: Isometry2::identity_value(), scale }),
    {
        Similarity2 { isometry: Isometry2::identity(), scale }
    }

    /// Builds the similarity that only translates.
    pub fn from_translation(translation: &Translation2<S>) -> (r: Self)
        ensures
            r == (Similarity2 {
                isometry: Isometry2 { rotation: Rotation2::identity_value(), translation: *translation },
                scale: S::one_value(),
            }),
    {
        Similarity2 { isometry: Isometry2::from_translation(translation), scale: S::one() }
    }

    /// Builds the similarity that is the given rigid motion, with scale one.
    pub fn from_isometry(isometry: &Isometry2<S>) -> (r: Self)
        ensures
            r == (Similarity2 { isometry: *isometry, scale: S::one_value() }),
    {
        Similarity2 { isometry: *isometry, scale: S::one() }
    }

    /// The uniform scale factor.
    pub fn scale(&self) -> (r: S)
        ensures
            r == self.scale,
    {
        self.scale
    }

    /// The rotation part.
    pub fn rotation(&self) -> (r: &Rotation2<S>)
        ensures
            *r == self.isometry.rotation,
    {
        &self.isometry.rotation
    }

    /// The translation part.
    pub fn translation(&self) -> (r: &Translation2<S>)
        ensures
            *r == self.isometry.translation,
    {
        &self.isometry.translation
    }

    pub fn identity() -> (r: Self)
        ensures
            r == Self::identity_value(),
    {
        Similarity2 { isometry: Isometry2::identity(), scale: S::one() }
    }

    /// Writes the similarity as a homogeneous matrix.
    pub fn to_affine_matrix(&self) -> (r: Matrix3x3<S>)
        ensures
            r == self.affine_matrix(),
    {
        let translation = self.isometry.translation.vector;
        let scale = self.scale;
        let rotation = self.isometry.rotation.matrix;
        Matrix3x3 {
            c0r0: scale.mul(rotation.c0r0),
            c0r1: scale.mul(rotation.c0r1),
            c0r2: S::zero(),
            c1r0: scale.mul(rotation.c1r0),
            c1r1: scale.mul(rotation.c1r1),
            c1r2: S::zero(),
            c2r0: translation.x,
            c2r1: translation.y,
            c2r2: S::one(),
        }
    }

    /// Converts the similarity to a general affine transformation with the
    /// same homogeneous matrix.
    pub fn to_transform(&self) -> (r: Transform2D<S>)
        ensures
            r.matrix == self.affine_matrix(),
    {
        Transform2D::from_matrix_unchecked(self.to_affine_matrix())
    }

    /// Scales the point, then applies the rigid motion.
    pub fn transform_point(&self, point: &Point2<S>) -> (r: Point2<S>)
        ensures
            r == self.transform_at(*point),
    {
        let scaled_point = point.mul(self.scale);
        self.isometry.transform_point(&scaled_point)
    }

    /// Scales the vector, then rotates it. The translation does not act on
    /// vectors.
    pub fn transform_vector(&self, vector: &Vector2<S>) -> (r: Vector2<S>)
        ensures
            r == self.transform(*vector),
    {
        let scaled_vector = vector.mul(self.scale);
        self.isometry.transform_vector(&scaled_vector)
    }

    /// Takes the rigid motion back from the point, then divides by the
    /// scale.
    pub fn inverse_transform_point(&self, point: &Point2<S>) -> (r: Point2<S>)
        ensures
            r == self.inverse_transform_at(*point),
    {
        self.isometry.inverse_transform_point(point).div(self.scale)
    }

    /// Takes the rotation back from the vector, then divides by the scale.
    pub fn inverse_transform_vector(&self, vector: &Vector2<S>) -> (r: Vector2<S>)
        ensures
            r == self.inverse_transform(*vector),
    {
        self.isometry.inverse_transform_vector(vector).div(self.scale)
    }

    /// Composes the similarity with a rigid motion that is applied first.
    pub fn mul_isometry(&self, other: &Isometry2<S>) -> (r: Self)
        ensures
            r == self.times_isometry(*other),
    {
        let shift = self.isometry.rotation.rotate_vector(&other.translation.vector).mul(self.scale);
        let translation = Translation2::from_vector(&self.isometry.translation.vector.add(&shift));
        let rotation = self.isometry.rotation.mul(&other.rotation);
        Similarity2::from_parts(&translation, &rotation, self.scale)
    }

    /// Composes two similarities: the result applies `other` first.
    pub fn mul(&self, other: &Self) -> (r: Self)
        ensures
            r == self.times(*other),
    {
        let mut result = self.mul_isometry(&other.isometry);
        result.scale = result.scale.mul(other.scale);
        result
    }

    /// Applies the similarity to a point; another name for
    /// [`Similarity2::transform_point`].
    pub fn mul_point(&self, point: &Point2<S>) -> (r: Point2<S>)
        ensures
            r == self.transform_at(*point),
    {
        self.transform_point(point)
    }
}

impl<S: ScalarSigned> Similarity2<S> {
    /// The inverse similarity. The scale becomes its reciprocal `s'`; the
    /// rigid motion is inverted in its own frame; and the translation that
    /// results is then stretched by `s'`.
    pub open spec fn inverted(self) -> Self {
        let scale = S::one_value().over(self.scale);
        let isometry = self.isometry.inverted();
        Similarity2 {
            isometry: Isometry2 {
                rotation: isometry.rotation,
                translation: Translation2 { vector: isometry.translation.vector.scaled(scale) },
            },
            scale,
        }
    }

    /// The inverse similarity. A scale of zero has no reciprocal: the result
    /// then holds whatever the scalar's division by zero gives.
    pub fn inverse(&self) -> (r: Self)
        ensures
            r == self.inverted(),
    {
        let mut similarity_inv = *self;
        similarity_inv.inverse_mut();
        similarity_inv
    }

    /// Replaces the similarity by its inverse.
    pub fn inverse_mut(&mut self)
        ensures
            *final(self) == old(self).inverted(),
    {
        self.scale = S::one().div(self.scale);
        self.isometry.inverse_mut();
        self.isometry.translation.vector = self.isometry.translation.vector.mul(self.scale);
    }
}

impl<S: Scalar> Similarity2<S> {
    /// Converts the similarity to a general affine transformation of the
    /// plane; another name for [`Similarity2::to_transform`].
    pub fn to_transform2d(&self) -> (r: Transform2D<S>)
        ensures
            r.matrix == self.affine_matrix(),
    {
        self.to_transform()
    }
}

impl<S: ScalarFloat> Similarity2<S> {
    /// Builds the similarity that rotates by `angle` about the origin.
    pub fn from_angle(angle: Radians<S>) -> (r: Self)
        ensures
            r == (Similarity2 {
                isometry: Isometry2 {
                    rotation: Rotation2::from_angle_value(angle),
                    translation: Translation2::identity_value(),
                },
                scale: S::one_value(),
            }),
    {
        Similarity2 { isometry: Isometry2::from_angle(angle), scale: S::one() }
    }
}

/// A similarity of space: a uniform scaling, followed by a rotation,
/// followed by a translation.
#[derive(Clone, Copy, Debug, PartialEq)]
pub struct Similarity3<S> {
    /// The rigid motion applied after the scaling.
    pub isometry: Isometry3<S>,
    /// The uniform scale factor.
    pub scale: S,
}

impl<S: Scalar> Similarity3<S> {
    /// The similarity that moves nothing.
    pub open spec fn identity_value() -> Self {
        Similarity3 { isometry: Isometry3::identity_value(), scale: S::one_value() }
    }

    /// The image of the vector `v`: scaled first, rotated second, and not
    /// translated.
    pub open spec fn transform(self, v: Vector3<S>) -> Vector3<S> {
        self.isometry.transform(v.scaled(self.scale))
    }

    /// The image of the point `p`: scaled first, rotated second, translated
    /// last.
    pub open spec fn transform_at(self, p: Point3<S>) -> Point3<S> {
        self.isometry.transform_at(p.scaled(self.scale))
    }

    /// The vector that `self` sends to `v`: the rigid motion is taken back
    /// first, the scaling last.
    pub open spec fn inverse_transform(self, v: Vector3<S>) -> Vector3<S> {
        self.isometry.inverse_transform(v).unscaled(self.scale)
    }

    /// The point that `self` sends to `p`: the rigid motion is taken back
    /// first, the scaling last.
    pub open spec fn inverse_transform_at(self, p: Point3<S>) -> Point3<S> {
        self.isometry.inverse_transform_at(p).unscaled(self.scale)
    }

    /// The composition with a rigid motion that is applied first. The
    /// translation of `other` is rotated into the frame of `self` and
    /// stretched by the scale of `self` before the translations are added.
    pub open spec fn times_isometry(self, other: Isometry3<S>) -> Self {
        Similarity3 {
            isometry: Isometry3 {
                rotation: self.isometry.rotation.times(other.rotation),
                translation: Translation3 {
                    vector: self.isometry.translation.vector.plus(
                        self.isometry.rotation.rotate(other.translation.vector).scaled(self.scale),
                    ),
                },
            },
            scale: self.scale,
        }
    }

    /// The composition that applies `other` first and `self` second: the
    /// composition with the rigid motion of `other`, with the two scales
    /// multiplied.
    pub open spec fn times(self, other: Self) -> Self {
        Similarity3 {
            isometry: self.times_isometry(other.isometry).isometry,
            scale: self.scale.times(other.scale),
        }
    }

    /// The similarity can be inverted: its motion is rigid and its scale is
    /// not zero.
    pub open spec fn is_invertible(self) -> bool {
        &&& self.isometry.is_rigid()
        &&& !self.scale.vanishes()
    }

    /// The homogeneous matrix of the similarity: the scale times the
    /// rotation in the upper left block, the translation in the last column.
    pub open spec fn affine_matrix(self) -> Matrix4x4<S> {
        Matrix4x4 {
            c0r0: self.scale.times(self.isometry.rotation.matrix.c0r0),
            c0r1: self.scale.times(self.isometry.rotation.matrix.c0r1),
            c0r2: self.scale.times(self.isometry.rotation.matrix.c0r2),
            c0r3: S::zero_value(),
            c1r0: self.scale.times(self.isometry.rotation.matrix.c1r0),
            c1r1: self.scale.times(self.isometry.rotation.matrix.c1r1),
            c1r2: self.scale.times(self.isometry.rotation.matrix.c1r2),
            c1r3: S::zero_value(),
            c2r0: self.scale.times(self.isometry.rotation.matrix.c2r0),
            c2r1: self.scale.times(self.isometry.rotation.matrix.c2r1),
            c2r2: self.scale.times(self.isometry.rotation.matrix.c2r2),
            c2r3: S::zero_value(),
            c3r0: self.isometry.translation.vector.x,
            c3r1: self.isometry.translation.vector.y,
            c3r2: self.isometry.translation.vector.z,
            c3r3: S::one_value(),
        }
    }

    /// Builds a similarity from its translation, rotation and scale, all
    /// kept as they are.
    pub fn from_parts(translation: &Translation3<S>, rotation: &Rotation3<S>, scale: S) -> (r: Self)
        ensures
            r == (Similarity3 {
                isometry: Isometry3 { rotation: *rotation, translation: *translation },
                scale,
            }),
    {
        Similarity3 { isometry: Isometry3::from_parts(translation, rotation), scale }
    }

    /// Builds the similarity that only rotates.
    pub fn from_rotation(rotation: &Rotation3<S>) -> (r: Self)
        ensures
            r == (Similarity3 {
                isometry: Isometry3 { rotation: *rotation, translation: Translation3::identity_value() },
                scale: S::one_value(),
            }),
    {
        Similarity3 { isometry: Isometry3::from_rotation(rotation), scale: S::one() }
    }

    /// Builds the similarity that only scales.
    pub fn from_scale(scale: S) -> (r: Self)
        ensures
            r == (Similarity3 { isometry: Isometry3::identity_value(), scale }),
    {
        Similarity3 { isometry: Isometry3::identity(), scale }
    }

    /// Builds the similarity that only translates.
    pub fn from_translation(translation: &Translation3<S>) -> (r: Self)
        ensures
            r == (Similarity3 {
                isometry: Isometry3 { rotation: Rotation3::identity_value(), translation: *translation },
                scale: S::one_value(),
            }),
    {
        Similarity3 { isometry: Isometry3::from_translation(translation), scale: S::one() }
    }

    /// Builds the similarity that is the given rigid motion, with scale one.
    pub fn from_isometry(isometry: &Isometry3<S>) -> (r: Self)
        ensures
            r == (Similarity3 { isometry: *isometry, scale: S::one_value() }),
    {
        Similarity3 { isometry: *isometry, scale: S::one() }
    }

    /// The uniform scale factor.
    pub fn scale(&self) -> (r: S)
        ensures
            r == self.scale,
    {
        self.scale
    }

    /// The rotation part.
    pub fn rotation(&self) -> (r: &Rotation3<S>)
        ensures
            *r == self.isometry.rotation,
    {
        &self.isometry.rotation
    }

    /// The translation part.
    pub fn translation(&self) -> (r: &Translation3<S>)
        ensures
            *r == self.isometry.translation,
    {
        &self.isometry.translation
    }

    pub fn identity() -> (r: Self)
        ensures
            r == Self::identity_value(),
    {
        Similarity3 { isometry: Isometry3::identity(), scale: S::one() }
    }

    /// Writes the similarity as a homogeneous matrix.
    pub fn to_affine_matrix(&self) -> (r: Matrix4x4<S>)
        ensures
            r == self.affine_matrix(),
    {
        let translation = self.isometry.translation.vector;
        let scale = self.scale;
        let rotation = self.isometry.rotation.matrix;
        Matrix4x4 {
            c0r0: scale.mul(rotation.c0r0),
            c0r1: scale.mul(rotation.c0r1),
            c0r2: scale.mul(rotation.c0r2),
            c0r3: S::zero(),
            c1r0: scale.mul(rotation.c1r0),
            c1r1: scale.mul(rotation.c1r1),
            c1r2: scale.mul(rotation.c1r2),
            c1r3: S::zero(),
            c2r0: scale.mul(rotation.c2r0),
            c2r1: scale.mul(rotation.c2r1),
            c2r2: scale.mul(rotation.c2r2),
            c2r3: S::zero(),
            c3r0: translation.x,
            c3r1: translation.y,
            c3r2: translation.z,
            c3r3: S::one(),
        }
    }

    /// Converts the similarity to a general affine transformation with the
    /// same homogeneous matrix.
    pub fn to_transform(&self) -> (r: Transform3D<S>)
        ensures
            r.matrix == self.affine_matrix(),
    {
        Transform3D::from_matrix_unchecked(self.to_affine_matrix())
    }

    /// Scales the point, then applies the rigid motion.
    pub fn transform_point(&self, point: &Point3<S>) -> (r: Point3<S>)
        ensures
            r == self.transform_at(*point),
    {
        let scaled_point = point.mul(self.scale);
        self.isometry.transform_point(&scaled_point)
    }

    /// Scales the vector, then rotates it. The translation does not act on
    /// vectors.
    pub fn transform_vector(&self, vector: &Vector3<S>) -> (r: Vector3<S>)
        ensures
            r == self.transform(*vector),
    {
        let scaled_vector = vector.mul(self.scale);
        self.isometry.transform_vector(&scaled_vector)
    }

    /// Takes the rigid motion back from the point, then divides by the
    /// scale.
    pub fn inverse_transform_point(&self, point: &Point3<S>) -> (r: Point3<S>)
        ensures
            r == self.inverse_transform_at(*point),
    {
        self.isometry.inverse_transform_point(point).div(self.scale)
    }

    /// Takes the rotation back from the vector, then divides by the scale.
    pub fn inverse_transform_vector(&self, vector: &Vector3<S>) -> (r: Vector3<S>)
        ensures
            r == self.inverse_transform(*vector),
    {
        self.isometry.inverse_transform_vector(vector).div(self.scale)
    }

    /// Composes the similarity with a rigid motion that is applied first.
    pub fn mul_isometry(&self, other: &Isometry3<S>) -> (r: Self)
        ensures
            r == self.times_isometry(*other),
    {
        let shift = self.isometry.rotation.rotate_vector(&other.translation.vector).mul(self.scale);
        let translation = Translation3::from_vector(&self.isometry.translation.vector.add(&shift));
        let rotation = self.isometry.rotation.mul(&other.rotation);
        Similarity3::from_parts(&translation, &rotation, self.scale)
    }

    /// Composes two similarities: the result applies `other` first.
    pub fn mul(&self, other: &Self) -> (r: Self)
        ensures
            r == self.times(*other),
    {
        let mut result = self.mul_isometry(&other.isometry);
        result.scale = result.scale.mul(other.scale);
        result
    }

    /// Applies the similarity to a point; another name for
    /// [`Similarity3::transform_point`].
    pub fn mul_point(&self, point: &Point3<S>) -> (r: Point3<S>)
        ensures
            r == self.transform_at(*point),
    {
        self.transform_point(point)
    }
}

impl<S: ScalarSigned> Similarity3<S> {
    /// The inverse similarity. The scale becomes its reciprocal `s'`; the
    /// rigid motion is inverted in its own frame; and the translation that
    /// results is then stretched by `s'`.
    pub open spec fn inverted(self) -> Self {
        let scale = S::one_value().over(self.scale);
        let isometry = self.isometry.inverted();
        Similarity3 {
            isometry: Isometry3 {
                rotation: isometry.rotation,
                translation: Translation3 { vector: isometry.translation.vector.scaled(scale) },
            },
            scale,
        }
    }

    /// The inverse similarity. A scale of zero has no reciprocal: the result
    /// then holds whatever the scalar's division by zero gives.
    pub fn inverse(&self) -> (r: Self)
        ensures
            r == self.inverted(),
    {
        let mut similarity_inv = *self;
        similarity_inv.inverse_mut();
        similarity_inv
    }

    /// Replaces the similarity by its inverse.
    pub fn inverse_mut(&mut self)
        ensures
            *final(self) == old(self).inverted(),
    {
        self.scale = S::one().div(self.scale);
        self.isometry.inverse_mut();
        self.isometry.translation.vector = self.isometry.translation.vector.mul(self.scale);
    }
}

impl<S: ScalarFloat> Similarity3<S> {
    /// Builds the similarity that rotates by `angle` about `axis`.
    pub fn from_axis_angle(axis: &Unit<Vector3<S>>, angle: Radians<S>) -> (r: Self)
        ensures
            r == (Similarity3 {
                isometry: Isometry3 {
                    rotation: Rotation3::from_axis_angle_value(*axis, angle),
                    translation: Translation3::identity_value(),
                },
                scale: S::one_value(),
            }),
    {
        Similarity3 { isometry: Isometry3::from_axis_angle(axis, angle), scale: S::one() }
    }

    /// Builds the left-handed view transformation of an observer at `eye` who
    /// looks along `direction`: `eye` goes to the origin and `direction` to the
    /// positive z-axis. `direction` and `up` must not be parallel.
    pub fn look_to_lh(eye: &Point3<S>, direction: &Vector3<S>, up: &Vector3<S>) -> (r: Self)
        ensures
            r == (Similarity3 {
                isometry: Isometry3::look_to_lh_value(*eye, *direction, *up),
                scale: S::one_value(),
            }),
    {
        let isometry = Isometry3::look_to_lh(eye, direction, up);
        Self::from_isometry(&isometry)
    }

    /// Builds the right-handed view transformation of an observer at `eye` who
    /// looks along `direction`: `eye` goes to the origin and `direction` to the
    /// negative z-axis. `direction` and `up` must not be parallel.
    pub fn look_to_rh(eye: &Point3<S>, direction: &Vector3<S>, up: &Vector3<S>) -> (r: Self)
        ensures
            r == (Similarity3 {
                isometry: Isometry3::look_to_rh_value(*eye, *direction, *up),
                scale: S::one_value(),
            }),
    {
        let isometry = Isometry3::look_to_rh(eye, direction, up);
        Self::from_isometry(&isometry)
    }

    /// Builds the left-handed view transformation of an observer at `eye` who
    /// looks at `target`. The line of sight and `up` must not be parallel.
    pub fn look_at_lh(eye: &Point3<S>, target: &Point3<S>, up: &Vector3<S>) -> (r: Self)
        ensures
            r == (Similarity3 {
                isometry: Isometry3::look_to_lh_value(*eye, target.minus(*eye), *up),
                scale: S::one_value(),
            }),
    {
        let isometry = Isometry3::look_at_lh(eye, target, up);
        Self::from_isometry(&isometry)
    }

    /// Builds the right-handed view transformation of an observer at `eye` who
    /// looks at `target`. The line of sight and `up` must not be parallel.
    pub fn look_at_rh(eye: &Point3<S>, target: &Point3<S>, up: &Vector3<S>) -> (r: Self)
        ensures
            r == (Similarity3 {
                isometry: Isometry3::look_to_rh_value(*eye, target.minus(*eye), *up),
                scale: S::one_value(),
            }),
    {
        let isometry = Isometry3::look_at_rh(eye, target, up);
        Self::from_isometry(&isometry)
    }

    /// Builds the inverse of the left-handed view transformation: the origin
    /// goes to `eye` and the positive z-axis to `direction`.
    pub fn look_to_lh_inv(eye: &Point3<S>, direction: &Vector3<S>, up: &Vector3<S>) -> (r: Self)
        ensures
            r == (Similarity3 {
                isometry: Isometry3::look_to_lh_inv_value(*eye, *direction, *up),
                scale: S::one_value(),
            }),
    {
        let isometry = Isometry3::look_to_lh_inv(eye, direction, up);
        Self::from_isometry(&isometry)
    }

    /// Builds the inverse of the right-handed view transformation: the origin
    /// goes to `eye` and the negative z-axis to `direction`.
    pub fn look_to_rh_inv(eye: &Point3<S>, direction: &Vector3<S>, up: &Vector3<S>) -> (r: Self)
        ensures
            r == (Similarity3 {
                isometry: Isometry3::look_to_rh_inv_value(*eye, *direction, *up),
                scale: S::one_value(),
            }),
    {
        let isometry = Isometry3::look_to_rh_inv(eye, direction, up);
        Self::from_isometry(&isometry)
    }

    /// Builds the inverse of the left-handed view transformation for an
    /// observer at `eye` who looks at `target`.
    pub fn look_at_lh_inv(eye: &Point3<S>, target: &Point3<S>, up: &Vector3<S>) -> (r: Self)
        ensures
            r == (Similarity3 {
                isometry: Isometry3::look_to_lh_inv_value(*eye, target.minus(*eye), *up),
                scale: S::one_value(),
            }),
    {
        let isometry = Isometry3::look_at_lh_inv(eye, target, up);
        Self::from_isometry(&isometry)
    }

    /// Builds the inverse of the right-handed view transformation for an
    /// observer at `eye` who looks at `target`.
    pub fn look_at_rh_inv(eye: &Point3<S>, target: &Point3<S>, up: &Vector3<S>) -> (r: Self)
        ensures
            r == (Similarity3 {
                isometry: Isometry3::look_to_rh_inv_value(*eye, target.minus(*eye), *up),
                scale: S::one_value(),
            }),
    {
        let isometry = Isometry3::look_at_rh_inv(eye, target, up);
        Self::from_isometry(&isometry)
    }

    /// Builds the transformation that places an observer at `eye` facing
    /// `target`: the positive z-axis goes to the line of sight and the origin
    /// to `eye`.
    pub fn face_towards(eye: &Point3<S>, target: &Point3<S>, up: &Vector3<S>) -> (r: Self)
        ensures
            r == (Similarity3 {
                isometry: Isometry3::look_to_lh_inv_value(*eye, target.minus(*eye), *up),
                scale: S::one_value(),
            }),
    {
        let isometry = Isometry3::face_towards(eye, target, up);
        Self::from_isometry(&isometry)
    }
}

/// The identity can be inverted, and so can the inverse of an invertible
/// similarity, the composition of two, and the composition with a rigid
/// motion.
pub proof fn lemma_similarity2_stays_invertible<S: Field>(a: Similarity2<S>, b: Similarity2<S>, i: Isometry2<S>)
    requires
        a.is_invertible(),
        b.is_invertible(),
        i.is_rigid(),
    ensures
        Similarity2::<S>::identity_value().is_invertible(),
        a.inverted().is_invertible(),
        a.times(b).is_invertible(),
        a.times_isometry(i).is_invertible(),
{
    lemma_isometry2_stays_rigid(a.isometry, b.isometry);
    lemma_isometry2_stays_rigid(a.isometry, i);
    lemma_reciprocal_is_not_zero(a.scale);
    lemma_product_is_not_zero(a.scale, b.scale);
}

/// The identity similarity fixes every point and every vector.
pub proof fn lemma_similarity2_identity_fixes<S: Field>(p: Point2<S>, v: Vector2<S>)
    ensures
        Similarity2::<S>::identity_value().transform_at(p) == p,
        Similarity2::<S>::identity_value().transform(v) == v,
{
    lemma_vector2_scaled_one(p.position());
    lemma_vector2_scaled_one(v);
    lemma_isometry2_identity_fixes(p, v);
}

/// A similarity acts on a vector as its rotation followed by its scaling:
/// the translation does not enter, and the scale can be applied first or
/// last, on the left or on the right.
pub proof fn lemma_similarity2_transform_vector<S: Field>(s: Similarity2<S>, v: Vector2<S>)
    ensures
        s.transform(v) == s.isometry.rotation.rotate(v).scaled(s.scale),
        s.transform(v) == s.isometry.rotation.rotate(v).scaled_by(s.scale),
{
    let w = s.isometry.rotation.rotate(v);
    lemma_apply2_scaled(s.isometry.rotation.matrix, v, s.scale);
    S::law_times_commutes(w.x, s.scale);
    S::law_times_commutes(w.y, s.scale);
}

/// A similarity with a scale other than zero, followed by its inverse, fixes
/// every point.
pub proof fn lemma_similarity2_inverse_undoes<S: Field>(s: Similarity2<S>, p: Point2<S>)
    requires
        s.is_invertible(),
    ensures
        s.inverted().transform_at(s.transform_at(p)) == p,
{
    let m = s.isometry.rotation.matrix;
    let mt = m.transposed();
    let t = s.isometry.translation.vector;
    let k = S::one_value().over(s.scale);
    let x = p.position();
    let y = m.apply(x.scaled(s.scale));
    // (y + t) k = y k + t k, and y k = m (x (s k)) = m x
    lemma_vector2_scaled_plus(y, t, k);
    lemma_apply2_scaled(m, x.scaled(s.scale), k);
    lemma_vector2_scaled_twice(x, s.scale, k);
    S::law_over(S::one_value(), s.scale);
    lemma_vector2_scaled_one(x);
    // m' (m x + t k) = x + (m' t) k
    lemma_apply2_plus(mt, m.apply(x), t.scaled(k));
    lemma_rotation2_inverse_undoes(s.isometry.rotation, x);
    lemma_apply2_scaled(mt, t, k);
    // the translation of the inverse is -((m' t) k)
    lemma_vector2_negated_scaled(mt.apply(t), k);
    lemma_vector2_plus_negated(x, mt.apply(t).scaled(k));
}

/// The homogeneous matrix of a similarity acts on points and on vectors as
/// the similarity does.
pub proof fn lemma_similarity2_affine_matrix_applies<S: Field>(
    s: Similarity2<S>,
    p: Point2<S>,
    v: Vector2<S>,
)
    ensures
        (Transform2D { matrix: s.affine_matrix() }).apply_to_point(p) == s.transform_at(p),
        (Transform2D { matrix: s.affine_matrix() }).apply_to_vector(v) == s.transform(v),
{
    let m = s.isometry.rotation.matrix;
    let t = s.isometry.translation.vector;
    let k = s.scale;
    let w = s.transform(v);
    lemma_factor_moves(k, m.c0r0, p.x);
    lemma_factor_moves(k, m.c0r1, p.x);
    lemma_factor_moves(k, m.c1r0, p.y);
    lemma_factor_moves(k, m.c1r1, p.y);
    lemma_factor_moves(k, m.c0r0, v.x);
    lemma_factor_moves(k, m.c0r1, v.x);
    lemma_factor_moves(k, m.c1r0, v.y);
    lemma_factor_moves(k, m.c1r1, v.y);
    S::law_times_one(t.x);
    S::law_times_one(t.y);
    lemma_times_zero(t.x);
    lemma_times_zero(t.y);
    S::law_plus_zero(w.x);
    S::law_plus_zero(w.y);
}

/// Composition agrees with application: the composed similarity sends a
/// point to where the two similarities send it in turn.
pub proof fn lemma_similarity2_times_applies<S: Field>(a: Similarity2<S>, b: Similarity2<S>, p: Point2<S>)
    ensures
        a.times(b).transform_at(p) == a.transform_at(b.transform_at(p)),
{
    let x = p.position();
    let (m, n) = (a.isometry.rotation.matrix, b.isometry.rotation.matrix);
    let (s, t) = (a.isometry.translation.vector, b.isometry.translation.vector);
    let (j, k) = (a.scale, b.scale);
    // left: (m n)(x (j k)) + (s + (m t) j)
    // right: m ((n (x k) + t) j) + s
    lemma_vector2_scaled_plus(n.apply(x.scaled(k)), t, j);
    lemma_apply2_plus(m, n.apply(x.scaled(k)).scaled(j), t.scaled(j));
    lemma_apply2_scaled(m, t, j);
    lemma_apply2_scaled(n, x.scaled(k), j);
    lemma_vector2_scaled_twice(x, k, j);
    S::law_times_commutes(k, j);
    lemma_apply2_times(m, n, x.scaled(j.times(k)));
    let u = m.apply(n.apply(x.scaled(j.times(k))));
    let w = m.apply(t).scaled(j);
    lemma_vector2_plus_associates(u, w, s);
    lemma_vector2_plus_commutes(w, s);
}

/// Composition of similarities is associative.
pub proof fn lemma_similarity2_times_associates<S: Field>(a: Similarity2<S>, b: Similarity2<S>, c: Similarity2<S>)
    ensures
        a.times(b).times(c) == a.times(b.times(c)),
{
    let (ra, rb, rc) = (
        a.isometry.rotation.matrix,
        b.isometry.rotation.matrix,
        c.isometry.rotation.matrix,
    );
    let (ta, tb, tc) = (
        a.isometry.translation.vector,
        b.isometry.translation.vector,
        c.isometry.translation.vector,
    );
    let (sa, sb) = (a.scale, b.scale);
    lemma_times2_associates(ra, rb, rc);
    S::law_times_associates(sa, sb, c.scale);
    // right: ta + (ra (tb + (rb tc) sb)) sa
    lemma_apply2_plus(ra, tb, rb.apply(tc).scaled(sb));
    lemma_vector2_scaled_plus(ra.apply(tb), ra.apply(rb.apply(tc).scaled(sb)), sa);
    lemma_apply2_scaled(ra, rb.apply(tc), sb);
    lemma_apply2_times(ra, rb, tc);
    lemma_vector2_scaled_twice(ra.times(rb).apply(tc), sb, sa);
    S::law_times_commutes(sb, sa);
    // left: (ta + (ra tb) sa) + ((ra rb) tc) (sa sb)
    lemma_vector2_plus_associates(
        ta,
        ra.apply(tb).scaled(sa),
        ra.times(rb).apply(tc).scaled(sa.times(sb)),
    );
}

/// Composition of a similarity with rigid motions is associative as well.
pub proof fn lemma_similarity2_times_isometry_associates<S: Field>(
    a: Similarity2<S>,
    b: Isometry2<S>,
    c: Isometry2<S>,
)
    ensures
        a.times_isometry(b).times_isometry(c) == a.times_isometry(b.times(c)),
{
    let (ra, rb, rc) = (a.isometry.rotation.matrix, b.rotation.matrix, c.rotation.matrix);
    let (ta, tb, tc) = (a.isometry.translation.vector, b.translation.vector, c.translation.vector);
    let sa = a.scale;
    lemma_times2_associates(ra, rb, rc);
    lemma_apply2_plus(ra, tb, rb.apply(tc));
    lemma_vector2_scaled_plus(ra.apply(tb), ra.apply(rb.apply(tc)), sa);
    lemma_apply2_times(ra, rb, tc);
    lemma_vector2_plus_associates(
        ta,
        ra.apply(tb).scaled(sa),
        ra.times(rb).apply(tc).scaled(sa),
    );
}

/// The identity can be inverted, and so can the inverse of an invertible
/// similarity, the composition of two, and the composition with a rigid
/// motion.
pub proof fn lemma_similarity3_stays_invertible<S: Field>(a: Similarity3<S>, b: Similarity3<S>, i: Isometry3<S>)
    requires
        a.is_invertible(),
        b.is_invertible(),
        i.is_rigid(),
    ensures
        Similarity3::<S>::identity_value().is_invertible(),
        a.inverted().is_invertible(),
        a.times(b).is_invertible(),
        a.times_isometry(i).is_invertible(),
{
    lemma_isometry3_stays_rigid(a.isometry, b.isometry);
    lemma_isometry3_stays_rigid(a.isometry, i);
    lemma_reciprocal_is_not_zero(a.scale);
    lemma_product_is_not_zero(a.scale, b.scale);
}

/// The identity similarity fixes every point and every vector.
pub proof fn lemma_similarity3_identity_fixes<S: Field>(p: Point3<S>, v: Vector3<S>)
    ensures
        Similarity3::<S>::identity_value().transform_at(p) == p,
        Similarity3::<S>::identity_value().transform(v) == v,
{
    lemma_vector3_scaled_one(p.position());
    lemma_vector3_scaled_one(v);
    lemma_isometry3_identity_fixes(p, v);
}

/// A similarity acts on a vector as its rotation followed by its scaling:
/// the translation does not enter, and the scale can be applied first or
/// last, on the left or on the right.
pub proof fn lemma_similarity3_transform_vector<S: Field>(s: Similarity3<S>, v: Vector3<S>)
    ensures
        s.transform(v) == s.isometry.rotation.rotate(v).scaled(s.scale),
        s.transform(v) == s.isometry.rotation.rotate(v).scaled_by(s.scale),
{
    let w = s.isometry.rotation.rotate(v);
    lemma_apply3_scaled(s.isometry.rotation.matrix, v, s.scale);
    S::law_times_commutes(w.x, s.scale);
    S::law_times_commutes(w.y, s.scale);
    S::law_times_commutes(w.z, s.scale);
}

/// A similarity with a scale other than zero, followed by its inverse, fixes
/// every point.
pub proof fn lemma_similarity3_inverse_undoes<S: Field>(s: Similarity3<S>, p: Point3<S>)
    requires
        s.is_invertible(),
    ensures
        s.inverted().transform_at(s.transform_at(p)) == p,
{
    let m = s.isometry.rotation.matrix;
    let mt = m.transposed();
    let t = s.isometry.translation.vector;
    let k = S::one_value().over(s.scale);
    let x = p.position();
    let y = m.apply(x.scaled(s.scale));
    // (y + t) k = y k + t k, and y k = m (x (s k)) = m x
    lemma_vector3_scaled_plus(y, t, k);
    lemma_apply3_scaled(m, x.scaled(s.scale), k);
    lemma_vector3_scaled_twice(x, s.scale, k);
    S::law_over(S::one_value(), s.scale);
    lemma_vector3_scaled_one(x);
    // m' (m x + t k) = x + (m' t) k
    lemma_apply3_plus(mt, m.apply(x), t.scaled(k));
    lemma_rotation3_inverse_undoes(s.isometry.rotation, x);
    lemma_apply3_scaled(mt, t, k);
    // the translation of the inverse is -((m' t) k)
    lemma_vector3_negated_scaled(mt.apply(t), k);
    lemma_vector3_plus_negated(x, mt.apply(t).scaled(k));
}

/// The homogeneous matrix of a similarity acts on points and on vectors as
/// the similarity does.
pub proof fn lemma_similarity3_affine_matrix_applies<S: Field>(
    s: Similarity3<S>,
    p: Point3<S>,
    v: Vector3<S>,
)
    ensures
        (Transform3D { matrix: s.affine_matrix() }).apply_to_point(p) == s.transform_at(p),
        (Transform3D { matrix: s.affine_matrix() }).apply_to_vector(v) == s.transform(v),
{
    let m = s.isometry.rotation.matrix;
    let t = s.isometry.translation.vector;
    let k = s.scale;
    let w = s.transform(v);
    lemma_factor_moves(k, m.c0r0, p.x);
    lemma_factor_moves(k, m.c0r1, p.x);
    lemma_factor_moves(k, m.c0r2, p.x);
    lemma_factor_moves(k, m.c1r0, p.y);
    lemma_factor_moves(k, m.c1r1, p.y);
    lemma_factor_moves(k, m.c1r2, p.y);
    lemma_factor_moves(k, m.c2r0, p.z);
    lemma_factor_moves(k, m.c2r1, p.z);
    lemma_factor_moves(k, m.c2r2, p.z);
    lemma_factor_moves(k, m.c0r0, v.x);
    lemma_factor_moves(k, m.c0r1, v.x);
    lemma_factor_moves(k, m.c0r2, v.x);
    lemma_factor_moves(k, m.c1r0, v.y);
    lemma_factor_moves(k, m.c1r1, v.y);
    lemma_factor_moves(k, m.c1r2, v.y);
    lemma_factor_moves(k, m.c2r0, v.z);
    lemma_factor_moves(k, m.c2r1, v.z);
    lemma_factor_moves(k, m.c2r2, v.z);
    S::law_times_one(t.x);
    S::law_times_one(t.y);
    S::law_times_one(t.z);
    lemma_times_zero(t.x);
    lemma_times_zero(t.y);
    lemma_times_zero(t.z);
    S::law_plus_zero(w.x);
    S::law_plus_zero(w.y);
    S::law_plus_zero(w.z);
}

/// Composition agrees with application: the composed similarity sends a
/// point to where the two similarities send it in turn.
pub proof fn lemma_similarity3_times_applies<S: Field>(a: Similarity3<S>, b: Similarity3<S>, p: Point3<S>)
    ensures
        a.times(b).transform_at(p) == a.transform_at(b.transform_at(p)),
{
    let x = p.position();
    let (m, n) = (a.isometry.rotation.matrix, b.isometry.rotation.matrix);
    let (s, t) = (a.isometry.translation.vector, b.isometry.translation.vector);
    let (j, k) = (a.scale, b.scale);
    // left: (m n)(x (j k)) + (s + (m t) j)
    // right: m ((n (x k) + t) j) + s
    lemma_vector3_scaled_plus(n.apply(x.scaled(k)), t, j);
    lemma_apply3_plus(m, n.apply(x.scaled(k)).scaled(j), t.scaled(j));
    lemma_apply3_scaled(m, t, j);
    lemma_apply3_scaled(n, x.scaled(k), j);
    lemma_vector3_scaled_twice(x, k, j);
    S::law_times_commutes(k, j);
    lemma_apply3_times(m, n, x.scaled(j.times(k)));
    let u = m.apply(n.apply(x.scaled(j.times(k))));
    let w = m.apply(t).scaled(j);
    lemma_vector3_plus_associates(u, w, s);
    lemma_vector3_plus_commutes(w, s);
}

/// Composition of similarities is associative.
pub proof fn lemma_similarity3_times_associates<S: Field>(a: Similarity3<S>, b: Similarity3<S>, c: Similarity3<S>)
    ensures
        a.times(b).times(c) == a.times(b.times(c)),
{
    let (ra, rb, rc) = (
        a.isometry.rotation.matrix,
        b.isometry.rotation.matrix,
        c.isometry.rotation.matrix,
    );
    let (ta, tb, tc) = (
        a.isometry.translation.vector,
        b.isometry.translation.vector,
        c.isometry.translation.vector,
    );
    let (sa, sb) = (a.scale, b.scale);
    lemma_times3_associates(ra, rb, rc);
    S::law_times_associates(sa, sb, c.scale);
    // right: ta + (ra (tb + (rb tc) sb)) sa
    lemma_apply3_plus(ra, tb, rb.apply(tc).scaled(sb));
    lemma_vector3_scaled_plus(ra.apply(tb), ra.apply(rb.apply(tc).scaled(sb)), sa);
    lemma_apply3_scaled(ra, rb.apply(tc), sb);
    lemma_apply3_times(ra, rb, tc);
    lemma_vector3_scaled_twice(ra.times(rb).apply(tc), sb, sa);
    S::law_times_commutes(sb, sa);
    // left: (ta + (ra tb) sa) + ((ra rb) tc) (sa sb)
    lemma_vector3_plus_associates(
        ta,
        ra.apply(tb).scaled(sa),
        ra.times(rb).apply(tc).scaled(sa.times(sb)),
    );
}

/// Composition of a similarity with rigid motions is associative as well.
pub proof fn lemma_similarity3_times_isometry_associates<S: Field>(
    a: Similarity3<S>,
    b: Isometry3<S>,
    c: Isometry3<S>,
)
    ensures
        a.times_isometry(b).times_isometry(c) == a.times_isometry(b.times(c)),
{
    let (ra, rb, rc) = (a.isometry.rotation.matrix, b.rotation.matrix, c.rotation.matrix);
    let (ta, tb, tc) = (a.isometry.translation.vector, b.translation.vector, c.translation.vector);
    let sa = a.scale;
    lemma_times3_associates(ra, rb, rc);
    lemma_apply3_plus(ra, tb, rb.apply(tc));
    lemma_vector3_scaled_plus(ra.apply(tb), ra.apply(rb.apply(tc)), sa);
    lemma_apply3_times(ra, rb, tc);
    lemma_vector3_plus_associates(
        ta,
        ra.apply(tb).scaled(sa),
        ra.times(rb).apply(tc).scaled(sa),
    );
}


/// Composing two similarities as general transformations, by the product of
/// their homogeneous matrices, gives a transformation that acts on points and
/// on vectors as the composed similarity does.
pub proof fn lemma_similarity2_composes_as_transform<S: Field>(
    a: Similarity2<S>,
    b: Similarity2<S>,
    p: Point2<S>,
    v: Vector2<S>,
)
    ensures
        (Transform2D { matrix: b.affine_matrix() }).is_affine(),
        (Transform2D { matrix: a.affine_matrix() }).times(
            Transform2D { matrix: b.affine_matrix() },
        ).apply_to_point(p) == a.times(b).transform_at(p),
        (Transform2D { matrix: a.affine_matrix() }).times(
            Transform2D { matrix: b.affine_matrix() },
        ).apply_to_vector(v) == a.transform(b.transform(v)),
{
    let ta = Transform2D { matrix: a.affine_matrix() };
    let tb = Transform2D { matrix: b.affine_matrix() };
    lemma_transform2d_times_applies(ta, tb, p, v);
    lemma_similarity2_affine_matrix_applies(b, p, v);
    lemma_similarity2_affine_matrix_applies(a, b.transform_at(p), b.transform(v));
    lemma_similarity2_times_applies(a, b, p);
}

/// Composing two similarities as general transformations, by the product of
/// their homogeneous matrices, gives a transformation that acts on points and
/// on vectors as the composed similarity does.
pub proof fn lemma_similarity3_composes_as_transform<S: Field>(
    a: Similarity3<S>,
    b: Similarity3<S>,
    p: Point3<S>,
    v: Vector3<S>,
)
    ensures
        (Transform3D { matrix: b.affine_matrix() }).is_affine(),
        (Transform3D { matrix: a.affine_matrix() }).times(
            Transform3D { matrix: b.affine_matrix() },
        ).apply_to_point(p) == a.times(b).transform_at(p),
        (Transform3D { matrix: a.affine_matrix() }).times(
            Transform3D { matrix: b.affine_matrix() },
        ).apply_to_vector(v) == a.transform(b.transform(v)),
{
    let ta = Transform3D { matrix: a.affine_matrix() };
    let tb = Transform3D { matrix: b.affine_matrix() };
    lemma_transform3d_times_applies(ta, tb, p, v);
    lemma_similarity3_affine_matrix_applies(b, p, v);
    lemma_similarity3_affine_matrix_applies(a, b.transform_at(p), b.transform(v));
    lemma_similarity3_times_applies(a, b, p);
}

} // verus!
