//! Translations, held as displacement vectors.

use crate::algebra::{lemma_negated_plus, lemma_negated_twice, lemma_plus_minus};
use crate::matrix::{Matrix3x3, Matrix4x4};
use crate::point::{Point2, Point3};
use crate::scalar::{Field, Scalar, ScalarSigned};
use crate::vector::{Vector2, Vector3};
use vstd::prelude::*;

verus! {

/// A translation of the plane by a displacement vector.
#[derive(Clone, Copy, Debug, PartialEq)]
pub struct Translation2<S> {
    pub vector: Vector2<S>,
}

impl<S: Scalar> Translation2<S> {
    /// The translation that moves nothing.
    pub open spec fn identity_value() -> Self {
        Translation2 { vector: Vector2::zero_value() }
    }

    /// The composition of two translations: the sum of the displacements.
    pub open spec fn times(self, other: Self) -> Self {
        Translation2 { vector: self.vector.plus(other.vector) }
    }

    /// The image of the point `p`.
    pub open spec fn translate_at(self, p: Point2<S>) -> Point2<S> {
        p.plus(self.vector)
    }

    /// The homogeneous matrix of the translation: the identity with the
    /// displacement in the last column.
    pub open spec fn affine_matrix(self) -> Matrix3x3<S> {
        Matrix3x3 {
            c0r0: S::one_value(),
            c0r1: S::zero_value(),
            c0r2: S::zero_value(),
            c1r0: S::zero_value(),
            c1r1: S::one_value(),
            c1r2: S::zero_value(),
            c2r0: self.vector.x,
            c2r1: self.vector.y,
            c2r2: S::one_value(),
        }
    }

    /// Builds the translation by the given displacements.
    pub fn new(x: S, y: S) -> (r: Self)
        ensures
            r.vector == (Vector2 { x, y }),
    {
        Translation2 { vector: Vector2 { x, y } }
    }

    /// Builds the translation by `distance`.
    pub fn from_vector(distance: &Vector2<S>) -> (r: Self)
        ensures
            r.vector == *distance,
    {
        Translation2 { vector: *distance }
    }

    /// Builds the translation by `distance`; another name for
    /// [`Translation2::from_vector`].
    pub fn from_translation(distance: &Vector2<S>) -> (r: Self)
        ensures
            r.vector == *distance,
    {
        Translation2 { vector: *distance }
    }

    pub fn identity() -> (r: Self)
        ensures
            r == Self::identity_value(),
    {
        Translation2 { vector: Vector2::zero() }
    }

    /// The displacement of the translation.
    pub fn vector(&self) -> (r: &Vector2<S>)
        ensures
            *r == self.vector,
    {
        &self.vector
    }

    /// Composes two translations.
    pub fn mul(&self, other: &Self) -> (r: Self)
        ensures
            r == self.times(*other),
    {
        Translation2 { vector: self.vector.add(&other.vector) }
    }

    /// Moves a point by the displacement.
    pub fn translate_point(&self, point: &Point2<S>) -> (r: Point2<S>)
        ensures
            r == self.translate_at(*point),
    {
        point.add(&self.vector)
    }

    /// A vector is a direction without a position: a translation leaves it
    /// as it is.
    pub fn translate_vector(&self, vector: &Vector2<S>) -> (r: Vector2<S>)
        ensures
            r == *vector,
    {
        *vector
    }

    /// Moves a point back by the displacement.
    pub fn inverse_translate_point(&self, point: &Point2<S>) -> (r: Point2<S>)
        ensures
            r == Point2::at(point.position().minus(self.vector)),
    {
        Point2::from_vector(&point.to_vector().sub(&self.vector))
    }

    /// The inverse of a translation leaves a vector as it is, too.
    pub fn inverse_translate_vector(&self, vector: &Vector2<S>) -> (r: Vector2<S>)
        ensures
            r == *vector,
    {
        *vector
    }

    /// Writes the translation as a homogeneous matrix.
    pub fn to_affine_matrix(&self) -> (r: Matrix3x3<S>)
        ensures
            r == self.affine_matrix(),
    {
        Matrix3x3 {
            c0r0: S::one(),
            c0r1: S::zero(),
            c0r2: S::zero(),
            c1r0: S::zero(),
            c1r1: S::one(),
            c1r2: S::zero(),
            c2r0: self.vector.x,
            c2r1: self.vector.y,
            c2r2: S::one(),
        }
    }
}

impl<S: ScalarSigned> Translation2<S> {
    /// The translation by the opposite displacement.
    pub open spec fn inverted(self) -> Self {
        Translation2 { vector: self.vector.negated() }
    }

    /// The inverse translation.
    pub fn inverse(&self) -> (r: Self)
        ensures
            r == self.inverted(),
    {
        Translation2 { vector: self.vector.neg() }
    }

    /// Replaces the translation by its inverse.
    pub fn inverse_mut(&mut self)
        ensures
            *final(self) == old(self).inverted(),
    {
        self.vector = self.vector.neg();
    }
}

/// A translation of space by a displacement vector.
#[derive(Clone, Copy, Debug, PartialEq)]
pub struct Translation3<S> {
    pub vector: Vector3<S>,
}

impl<S: Scalar> Translation3<S> {
    /// The translation that moves nothing.
    pub open spec fn identity_value() -> Self {
        Translation3 { vector: Vector3::zero_value() }
    }

    /// The composition of two translations: the sum of the displacements.
    pub open spec fn times(self, other: Self) -> Self {
        Translation3 { vector: self.vector.plus(other.vector) }
    }

    /// The image of the point `p`.
    pub open spec fn translate_at(self, p: Point3<S>) -> Point3<S> {
        p.plus(self.vector)
    }

    /// The homogeneous matrix of the translation: the identity with the
    /// displacement in the last column.
    pub open spec fn affine_matrix(self) -> Matrix4x4<S> {
        Matrix4x4 {
            c0r0: S::one_value(),
            c0r1: S::zero_value(),
            c0r2: S::zero_value(),
            c0r3: S::zero_value(),
            c1r0: S::zero_value(),
            c1r1: S::one_value(),
            c1r2: S::zero_value(),
            c1r3: S::zero_value(),
            c2r0: S::zero_value(),
            c2r1: S::zero_value(),
            c2r2: S::one_value(),
            c2r3: S::zero_value(),
            c3r0: self.vector.x,
            c3r1: self.vector.y,
            c3r2: self.vector.z,
            c3r3: S::one_value(),
        }
    }

    /// Builds the translation by the given displacements.
    pub fn new(x: S, y: S, z: S) -> (r: Self)
        ensures
            r.vector == (Vector3 { x, y, z }),
    {
        Translation3 { vector: Vector3 { x, y, z } }
    }

    /// Builds the translation by `distance`.
    pub fn from_vector(distance: &Vector3<S>) -> (r: Self)
        ensures
            r.vector == *distance,
    {
        Translation3 { vector: *distance }
    }

    /// Builds the translation by `distance`; another name for
    /// [`Translation3::from_vector`].
    pub fn from_translation(distance: &Vector3<S>) -> (r: Self)
        ensures
            r.vector == *distance,
    {
        Translation3 { vector: *distance }
    }

    pub fn identity() -> (r: Self)
        ensures
            r == Self::identity_value(),
    {
        Translation3 { vector: Vector3::zero() }
    }

    /// The displacement of the translation.
    pub fn vector(&self) -> (r: &Vector3<S>)
        ensures
            *r == self.vector,
    {
        &self.vector
    }

    /// Composes two translations.
    pub fn mul(&self, other: &Self) -> (r: Self)
        ensures
            r == self.times(*other),
    {
        Translation3 { vector: self.vector.add(&other.vector) }
    }

    /// Moves a point by the displacement.
    pub fn translate_point(&self, point: &Point3<S>) -> (r: Point3<S>)
        ensures
            r == self.translate_at(*point),
    {
        point.add(&self.vector)
    }

    /// A vector is a direction without a position: a translation leaves it
    /// as it is.
    pub fn translate_vector(&self, vector: &Vector3<S>) -> (r: Vector3<S>)
        ensures
            r == *vector,
    {
        *vector
    }

    /// Moves a point back by the displacement.
    pub fn inverse_translate_point(&self, point: &Point3<S>) -> (r: Point3<S>)
        ensures
            r == Point3::at(point.position().minus(self.vector)),
    {
        Point3::from_vector(&point.to_vector().sub(&self.vector))
    }

    /// The inverse of a translation leaves a vector as it is, too.
    pub fn inverse_translate_vector(&self, vector: &Vector3<S>) -> (r: Vector3<S>)
        ensures
            r == *vector,
    {
        *vector
    }

    /// Writes the translation as a homogeneous matrix.
    pub fn to_affine_matrix(&self) -> (r: Matrix4x4<S>)
        ensures
            r == self.affine_matrix(),
    {
        Matrix4x4 {
            c0r0: S::one(),
            c0r1: S::zero(),
            c0r2: S::zero(),
            c0r3: S::zero(),
            c1r0: S::zero(),
            c1r1: S::one(),
            c1r2: S::zero(),
            c1r3: S::zero(),
            c2r0: S::zero(),
            c2r1: S::zero(),
            c2r2: S::one(),
            c2r3: S::zero(),
            c3r0: self.vector.x,
            c3r1: self.vector.y,
            c3r2: self.vector.z,
            c3r3: S::one(),
        }
    }
}

impl<S: ScalarSigned> Translation3<S> {
    /// The translation by the opposite displacement.
    pub open spec fn inverted(self) -> Self {
        Translation3 { vector: self.vector.negated() }
    }

    /// The inverse translation.
    pub fn inverse(&self) -> (r: Self)
        ensures
            r == self.inverted(),
    {
        Translation3 { vector: self.vector.neg() }
    }

    /// Replaces the translation by its inverse.
    pub fn inverse_mut(&mut self)
        ensures
            *final(self) == old(self).inverted(),
    {
        self.vector = self.vector.neg();
    }
}


/// A translation followed by its inverse fixes every point, in either order;
/// and composing translations is applying them in turn.
pub proof fn lemma_translation2_inverse_undoes<S: Field>(t: Translation2<S>, u: Translation2<S>, p: Point2<S>)
    ensures
        t.inverted().translate_at(t.translate_at(p)) == p,
        t.translate_at(t.inverted().translate_at(p)) == p,
        t.inverted().times(t) == Translation2::<S>::identity_value(),
        t.times(u).translate_at(p) == t.translate_at(u.translate_at(p)),
{
    lemma_plus_minus(p.x, t.vector.x);
    lemma_plus_minus(p.y, t.vector.y);
    lemma_negated_twice(t.vector.x);
    lemma_negated_twice(t.vector.y);
    lemma_plus_minus(p.x, t.vector.x.negated());
    lemma_plus_minus(p.y, t.vector.y.negated());
    lemma_negated_plus(t.vector.x);
    lemma_negated_plus(t.vector.y);
    S::law_plus_associates(p.x, u.vector.x, t.vector.x);
    S::law_plus_associates(p.y, u.vector.y, t.vector.y);
    S::law_plus_commutes(u.vector.x, t.vector.x);
    S::law_plus_commutes(u.vector.y, t.vector.y);
}

/// A translation followed by its inverse fixes every point, in either order;
/// and composing translations is applying them in turn.
pub proof fn lemma_translation3_inverse_undoes<S: Field>(t: Translation3<S>, u: Translation3<S>, p: Point3<S>)
    ensures
        t.inverted().translate_at(t.translate_at(p)) == p,
        t.translate_at(t.inverted().translate_at(p)) == p,
        t.inverted().times(t) == Translation3::<S>::identity_value(),
        t.times(u).translate_at(p) == t.translate_at(u.translate_at(p)),
{
    lemma_plus_minus(p.x, t.vector.x);
    lemma_plus_minus(p.y, t.vector.y);
    lemma_plus_minus(p.z, t.vector.z);
    lemma_negated_twice(t.vector.x);
    lemma_negated_twice(t.vector.y);
    lemma_negated_twice(t.vector.z);
    lemma_plus_minus(p.x, t.vector.x.negated());
    lemma_plus_minus(p.y, t.vector.y.negated());
    lemma_plus_minus(p.z, t.vector.z.negated());
    lemma_negated_plus(t.vector.x);
    lemma_negated_plus(t.vector.y);
    lemma_negated_plus(t.vector.z);
    S::law_plus_associates(p.x, u.vector.x, t.vector.x);
    S::law_plus_associates(p.y, u.vector.y, t.vector.y);
    S::law_plus_associates(p.z, u.vector.z, t.vector.z);
    S::law_plus_commutes(u.vector.x, t.vector.x);
    S::law_plus_commutes(u.vector.y, t.vector.y);
    S::law_plus_commutes(u.vector.z, t.vector.z);
}

} // verus!
