//! The single-purpose linear maps: identity, scaling, reflection, and
//! shear. Each is a value that holds its homogeneous matrix; to compose or
//! invert one, convert it to a general transformation.

use crate::algebra::{
    lemma_negated_zero, lemma_one_times, lemma_times_zero, lemma_zero_plus, lemma_zero_times,
};
use crate::matrix::{Matrix3x3, Matrix4x4};
use crate::scalar::{Field, Scalar, ScalarSigned};
use crate::transform::{Transform2D, Transform3D};
use crate::vector::{Vector2, Vector3};
use vstd::prelude::*;

verus! {

/// The identity transformation of the plane.
#[derive(Clone, Copy, Debug, PartialEq)]
pub struct Identity2<S> {
    pub matrix: Matrix3x3<S>,
}

impl<S: Scalar> Identity2<S> {
    pub fn identity() -> (r: Self)
        ensures
            r.matrix == Matrix3x3::<S>::identity_value(),
    {
        Identity2 { matrix: Matrix3x3::identity() }
    }

    /// The homogeneous matrix.
    pub fn matrix(&self) -> (r: &Matrix3x3<S>)
        ensures
            *r == self.matrix,
    {
        &self.matrix
    }

    /// Converts to a general affine transformation with the same matrix.
    pub fn to_transform2d(&self) -> (r: Transform2D<S>)
        ensures
            r.matrix == self.matrix,
    {
        Transform2D::from_matrix_unchecked(self.matrix)
    }
}

/// A scaling of the plane along the coordinate axes.
#[derive(Clone, Copy, Debug, PartialEq)]
pub struct Scale2<S> {
    pub matrix: Matrix3x3<S>,
}

impl<S: Scalar> Scale2<S> {
    /// The diagonal matrix of the scale factors, with a last entry of one.
    pub open spec fn scaling_matrix(sx: S, sy: S) -> Matrix3x3<S> {
        Matrix3x3 {
            c0r0: sx,
            c0r1: S::zero_value(),
            c0r2: S::zero_value(),
            c1r0: S::zero_value(),
            c1r1: sy,
            c1r2: S::zero_value(),
            c2r0: S::zero_value(),
            c2r1: S::zero_value(),
            c2r2: S::one_value(),
        }
    }

    /// Builds the scaling whose factors are the components of `scale`.
    pub fn from_vector(scale: Vector2<S>) -> (r: Self)
        ensures
            r.matrix == Self::scaling_matrix(scale.x, scale.y),
    {
        Self::from_nonuniform_scale(scale.x, scale.y)
    }

    /// Builds the scaling with one factor for each axis.
    pub fn from_nonuniform_scale(sx: S, sy: S) -> (r: Self)
        ensures
            r.matrix == Self::scaling_matrix(sx, sy),
    {
        Scale2 {
            matrix: Matrix3x3 {
                c0r0: sx,
                c0r1: S::zero(),
                c0r2: S::zero(),
                c1r0: S::zero(),
                c1r1: sy,
                c1r2: S::zero(),
                c2r0: S::zero(),
                c2r1: S::zero(),
                c2r2: S::one(),
            },
        }
    }

    /// Builds the scaling with the same factor for every axis.
    pub fn from_scale(scale: S) -> (r: Self)
        ensures
            r.matrix == Self::scaling_matrix(scale, scale),
    {
        Self::from_nonuniform_scale(scale, scale)
    }

    /// The homogeneous matrix.
    pub fn matrix(&self) -> (r: &Matrix3x3<S>)
        ensures
            *r == self.matrix,
    {
        &self.matrix
    }

    /// Converts to a general affine transformation with the same matrix.
    pub fn to_transform2d(&self) -> (r: Transform2D<S>)
        ensures
            r.matrix == self.matrix,
    {
        Transform2D::from_matrix_unchecked(self.matrix)
    }
}

/// The reflection of the plane in the line through the origin with a given
/// unit normal.
#[derive(Clone, Copy, Debug, PartialEq)]
pub struct Reflection2<S> {
    pub matrix: Matrix3x3<S>,
}

impl<S: ScalarSigned> Reflection2<S> {
    /// Householder's matrix `I - 2 n n^T` for the normal `n`, with a last
    /// entry of one.
    pub open spec fn householder(normal: Vector2<S>) -> Matrix3x3<S> {
        let one = S::one_value();
        let two = one.plus(one);
        let minus_two = two.negated();
        Matrix3x3 {
            c0r0: one.minus(two.times(normal.x).times(normal.x)),
            c0r1: minus_two.times(normal.x).times(normal.y),
            c0r2: S::zero_value(),
            c1r0: minus_two.times(normal.x).times(normal.y),
            c1r1: one.minus(two.times(normal.y).times(normal.y)),
            c1r2: S::zero_value(),
            c2r0: S::zero_value(),
            c2r1: S::zero_value(),
            c2r2: S::one_value(),
        }
    }

    /// Builds the reflection in the line with the given normal. The
    /// normal must have length one for the result to be a reflection.
    pub fn from_normal(normal: Vector2<S>) -> (r: Self)
        ensures
            r.matrix == Self::householder(normal),
    {
        let one = S::one();
        let two = one.add(one);
        let minus_two = two.neg();
        Reflection2 {
            matrix: Matrix3x3 {
                c0r0: one.sub(two.mul(normal.x).mul(normal.x)),
                c0r1: minus_two.mul(normal.x).mul(normal.y),
                c0r2: S::zero(),
                c1r0: minus_two.mul(normal.x).mul(normal.y),
                c1r1: one.sub(two.mul(normal.y).mul(normal.y)),
                c1r2: S::zero(),
                c2r0: S::zero(),
                c2r1: S::zero(),
                c2r2: S::one(),
            },
        }
    }

    /// The homogeneous matrix.
    pub fn matrix(&self) -> (r: &Matrix3x3<S>)
        ensures
            *r == self.matrix,
    {
        &self.matrix
    }

    /// Converts to a general affine transformation with the same matrix.
    pub fn to_transform2d(&self) -> (r: Transform2D<S>)
        ensures
            r.matrix == self.matrix,
    {
        Transform2D::from_matrix_unchecked(self.matrix)
    }
}

/// A shear of the plane: each coordinate is moved in proportion to the
/// others.
#[derive(Clone, Copy, Debug, PartialEq)]
pub struct Shear2<S> {
    pub matrix: Matrix3x3<S>,
}

impl<S: Scalar> Shear2<S> {
    /// The matrix that adds `x_with_y` times y to x and `y_with_x` times x to
    /// y.
    pub open spec fn shearing_matrix(x_with_y: S, y_with_x: S) -> Matrix3x3<S> {
        Matrix3x3 {
            c0r0: S::one_value(),
            c0r1: y_with_x,
            c0r2: S::zero_value(),
            c1r0: x_with_y,
            c1r1: S::one_value(),
            c1r2: S::zero_value(),
            c2r0: S::zero_value(),
            c2r1: S::zero_value(),
            c2r2: S::one_value(),
        }
    }

    /// Builds the shear that moves x by `shear.x` times y, and y by
    /// `shear.y` times x.
    pub fn from_vector(shear: Vector2<S>) -> (r: Self)
        ensures
            r.matrix == Self::shearing_matrix(shear.x, shear.y),
    {
        Shear2 {
            matrix: Matrix3x3 {
                c0r0: S::one(),
                c0r1: shear.y,
                c0r2: S::zero(),
                c1r0: shear.x,
                c1r1: S::one(),
                c1r2: S::zero(),
                c2r0: S::zero(),
                c2r1: S::zero(),
                c2r2: S::one(),
            },
        }
    }

    /// Builds the shear along the x-axis: x moves by `shear_y` times y.
    pub fn from_shear_x(shear_y: S) -> (r: Self)
        ensures
            r.matrix == Self::shearing_matrix(shear_y, S::zero_value()),
    {
        Self::from_vector(Vector2 { x: shear_y, y: S::zero() })
    }

    /// Builds the shear along the y-axis: y moves by `shear_x` times x.
    pub fn from_shear_y(shear_x: S) -> (r: Self)
        ensures
            r.matrix == Self::shearing_matrix(S::zero_value(), shear_x),
    {
        Self::from_vector(Vector2 { x: S::zero(), y: shear_x })
    }

    /// The homogeneous matrix.
    pub fn matrix(&self) -> (r: &Matrix3x3<S>)
        ensures
            *r == self.matrix,
    {
        &self.matrix
    }

    /// Converts to a general affine transformation with the same matrix.
    pub fn to_transform2d(&self) -> (r: Transform2D<S>)
        ensures
            r.matrix == self.matrix,
    {
        Transform2D::from_matrix_unchecked(self.matrix)
    }
}

/// The identity transformation of space.
#[derive(Clone, Copy, Debug, PartialEq)]
pub struct Identity3<S> {
    pub matrix: Matrix4x4<S>,
}

impl<S: Scalar> Identity3<S> {
    pub fn identity() -> (r: Self)
        ensures
            r.matrix == Matrix4x4::<S>::identity_value(),
    {
        Identity3 { matrix: Matrix4x4::identity() }
    }

    /// The homogeneous matrix.
    pub fn matrix(&self) -> (r: &Matrix4x4<S>)
        ensures
            *r == self.matrix,
    {
        &self.matrix
    }

    /// Converts to a general affine transformation with the same matrix.
    pub fn to_transform3d(&self) -> (r: Transform3D<S>)
        ensures
            r.matrix == self.matrix,
    {
        Transform3D::from_matrix_unchecked(self.matrix)
    }
}

/// A scaling of space along the coordinate axes.
#[derive(Clone, Copy, Debug, PartialEq)]
pub struct Scale3<S> {
    pub matrix: Matrix4x4<S>,
}

impl<S: Scalar> Scale3<S> {
    /// The diagonal matrix of the scale factors, with a last entry of one.
    pub open spec fn scaling_matrix(sx: S, sy: S, sz: S) -> Matrix4x4<S> {
        Matrix4x4 {
            c0r0: sx,
            c0r1: S::zero_value(),
            c0r2: S::zero_value(),
            c0r3: S::zero_value(),
            c1r0: S::zero_value(),
            c1r1: sy,
            c1r2: S::zero_value(),
            c1r3: S::zero_value(),
            c2r0: S::zero_value(),
            c2r1: S::zero_value(),
            c2r2: sz,
            c2r3: S::zero_value(),
            c3r0: S::zero_value(),
            c3r1: S::zero_value(),
            c3r2: S::zero_value(),
            c3r3: S::one_value(),
        }
    }

    /// Builds the scaling whose factors are the components of `scale`.
    pub fn from_vector(scale: Vector3<S>) -> (r: Self)
        ensures
            r.matrix == Self::scaling_matrix(scale.x, scale.y, scale.z),
    {
        Self::from_nonuniform_scale(scale.x, scale.y, scale.z)
    }

    /// Builds the scaling with one factor for each axis.
    pub fn from_nonuniform_scale(sx: S, sy: S, sz: S) -> (r: Self)
        ensures
            r.matrix == Self::scaling_matrix(sx, sy, sz),
    {
        Scale3 {
            matrix: Matrix4x4 {
                c0r0: sx,
                c0r1: S::zero(),
                c0r2: S::zero(),
                c0r3: S::zero(),
                c1r0: S::zero(),
                c1r1: sy,
                c1r2: S::zero(),
                c1r3: S::zero(),
                c2r0: S::zero(),
                c2r1: S::zero(),
                c2r2: sz,
                c2r3: S::zero(),
                c3r0: S::zero(),
                c3r1: S::zero(),
                c3r2: S::zero(),
                c3r3: S::one(),
            },
        }
    }

    /// Builds the scaling with the same factor for every axis.
    pub fn from_scale(scale: S) -> (r: Self)
        ensures
            r.matrix == Self::scaling_matrix(scale, scale, scale),
    {
        Self::from_nonuniform_scale(scale, scale, scale)
    }

    /// The homogeneous matrix.
    pub fn matrix(&self) -> (r: &Matrix4x4<S>)
        ensures
            *r == self.matrix,
    {
        &self.matrix
    }

    /// Converts to a general affine transformation with the same matrix.
    pub fn to_transform3d(&self) -> (r: Transform3D<S>)
        ensures
            r.matrix == self.matrix,
    {
        Transform3D::from_matrix_unchecked(self.matrix)
    }
}

/// The reflection of space in the plane through the origin with a given
/// unit normal.
#[derive(Clone, Copy, Debug, PartialEq)]
pub struct Reflection3<S> {
    pub matrix: Matrix4x4<S>,
}

impl<S: ScalarSigned> Reflection3<S> {
    /// Householder's matrix `I - 2 n n^T` for the normal `n`, with a last
    /// entry of one.
    pub open spec fn householder(normal: Vector3<S>) -> Matrix4x4<S> {
        let one = S::one_value();
        let two = one.plus(one);
        let minus_two = two.negated();
        Matrix4x4 {
            c0r0: one.minus(two.times(normal.x).times(normal.x)),
            c0r1: minus_two.times(normal.x).times(normal.y),
            c0r2: minus_two.times(normal.x).times(normal.z),
            c0r3: S::zero_value(),
            c1r0: minus_two.times(normal.x).times(normal.y),
            c1r1: one.minus(two.times(normal.y).times(normal.y)),
            c1r2: minus_two.times(normal.y).times(normal.z),
            c1r3: S::zero_value(),
            c2r0: minus_two.times(normal.x).times(normal.z),
            c2r1: minus_two.times(normal.y).times(normal.z),
            c2r2: one.minus(two.times(normal.z).times(normal.z)),
            c2r3: S::zero_value(),
            c3r0: S::zero_value(),
            c3r1: S::zero_value(),
            c3r2: S::zero_value(),
            c3r3: S::one_value(),
        }
    }

    /// Builds the reflection in the plane with the given normal. The
    /// normal must have length one for the result to be a reflection.
    pub fn from_normal(normal: Vector3<S>) -> (r: Self)
        ensures
            r.matrix == Self::householder(normal),
    {
        let one = S::one();
        let two = one.add(one);
        let minus_two = two.neg();
        Reflection3 {
            matrix: Matrix4x4 {
                c0r0: one.sub(two.mul(normal.x).mul(normal.x)),
                c0r1: minus_two.mul(normal.x).mul(normal.y),
                c0r2: minus_two.mul(normal.x).mul(normal.z),
                c0r3: S::zero(),
                c1r0: minus_two.mul(normal.x).mul(normal.y),
                c1r1: one.sub(two.mul(normal.y).mul(normal.y)),
                c1r2: minus_two.mul(normal.y).mul(normal.z),
                c1r3: S::zero(),
                c2r0: minus_two.mul(normal.x).mul(normal.z),
                c2r1: minus_two.mul(normal.y).mul(normal.z),
                c2r2: one.sub(two.mul(normal.z).mul(normal.z)),
                c2r3: S::zero(),
                c3r0: S::zero(),
                c3r1: S::zero(),
                c3r2: S::zero(),
                c3r3: S::one(),
            },
        }
    }

    /// The homogeneous matrix.
    pub fn matrix(&self) -> (r: &Matrix4x4<S>)
        ensures
            *r == self.matrix,
    {
        &self.matrix
    }

    /// Converts to a general affine transformation with the same matrix.
    pub fn to_transform3d(&self) -> (r: Transform3D<S>)
        ensures
            r.matrix == self.matrix,
    {
        Transform3D::from_matrix_unchecked(self.matrix)
    }
}

/// A shear of space: each coordinate is moved in proportion to the
/// others.
#[derive(Clone, Copy, Debug, PartialEq)]
pub struct Shear3<S> {
    pub matrix: Matrix4x4<S>,
}

impl<S: Scalar> Shear3<S> {
    /// The matrix that adds `shear_y` times y and `shear_z` times z to x.
    pub open spec fn shearing_matrix_x(shear_y: S, shear_z: S) -> Matrix4x4<S> {
        Matrix4x4 {
            c0r0: S::one_value(),
            c0r1: S::zero_value(),
            c0r2: S::zero_value(),
            c0r3: S::zero_value(),
            c1r0: shear_y,
            c1r1: S::one_value(),
            c1r2: S::zero_value(),
            c1r3: S::zero_value(),
            c2r0: shear_z,
            c2r1: S::zero_value(),
            c2r2: S::one_value(),
            c2r3: S::zero_value(),
            c3r0: S::zero_value(),
            c3r1: S::zero_value(),
            c3r2: S::zero_value(),
            c3r3: S::one_value(),
        }
    }

    /// Builds the shear along the x-axis: x moves by `shear_y` times y and by
    /// `shear_z` times z.
    pub fn from_shear_x(shear_y: S, shear_z: S) -> (r: Self)
        ensures
            r.matrix == Self::shearing_matrix_x(shear_y, shear_z),
    {
        Shear3 {
            matrix: Matrix4x4 {
                c0r0: S::one(),
                c0r1: S::zero(),
                c0r2: S::zero(),
                c0r3: S::zero(),
                c1r0: shear_y,
                c1r1: S::one(),
                c1r2: S::zero(),
                c1r3: S::zero(),
                c2r0: shear_z,
                c2r1: S::zero(),
                c2r2: S::one(),
                c2r3: S::zero(),
                c3r0: S::zero(),
                c3r1: S::zero(),
                c3r2: S::zero(),
                c3r3: S::one(),
            },
        }
    }

    /// The matrix that adds `shear_x` times x and `shear_z` times z to y.
    pub open spec fn shearing_matrix_y(shear_x: S, shear_z: S) -> Matrix4x4<S> {
        Matrix4x4 {
            c0r0: S::one_value(),
            c0r1: shear_x,
            c0r2: S::zero_value(),
            c0r3: S::zero_value(),
            c1r0: S::zero_value(),
            c1r1: S::one_value(),
            c1r2: S::zero_value(),
            c1r3: S::zero_value(),
            c2r0: S::zero_value(),
            c2r1: shear_z,
            c2r2: S::one_value(),
            c2r3: S::zero_value(),
            c3r0: S::zero_value(),
            c3r1: S::zero_value(),
            c3r2: S::zero_value(),
            c3r3: S::one_value(),
        }
    }

    /// Builds the shear along the y-axis: y moves by `shear_x` times x and by
    /// `shear_z` times z.
    pub fn from_shear_y(shear_x: S, shear_z: S) -> (r: Self)
        ensures
            r.matrix == Self::shearing_matrix_y(shear_x, shear_z),
    {
        Shear3 {
            matrix: Matrix4x4 {
                c0r0: S::one(),
                c0r1: shear_x,
                c0r2: S::zero(),
                c0r3: S::zero(),
                c1r0: S::zero(),
                c1r1: S::one(),
                c1r2: S::zero(),
                c1r3: S::zero(),
                c2r0: S::zero(),
                c2r1: shear_z,
                c2r2: S::one(),
                c2r3: S::zero(),
                c3r0: S::zero(),
                c3r1: S::zero(),
                c3r2: S::zero(),
                c3r3: S::one(),
            },
        }
    }

    /// The matrix that adds `shear_x` times x and `shear_y` times y to z.
    pub open spec fn shearing_matrix_z(shear_x: S, shear_y: S) -> Matrix4x4<S> {
        Matrix4x4 {
            c0r0: S::one_value(),
            c0r1: S::zero_value(),
            c0r2: shear_x,
            c0r3: S::zero_value(),
            c1r0: S::zero_value(),
            c1r1: S::one_value(),
            c1r2: shear_y,
            c1r3: S::zero_value(),
            c2r0: S::zero_value(),
            c2r1: S::zero_value(),
            c2r2: S::one_value(),
            c2r3: S::zero_value(),
            c3r0: S::zero_value(),
            c3r1: S::zero_value(),
            c3r2: S::zero_value(),
            c3r3: S::one_value(),
        }
    }

    /// Builds the shear along the z-axis: z moves by `shear_x` times x and by
    /// `shear_y` times y.
    pub fn from_shear_z(shear_x: S, shear_y: S) -> (r: Self)
        ensures
            r.matrix == Self::shearing_matrix_z(shear_x, shear_y),
    {
        Shear3 {
            matrix: Matrix4x4 {
                c0r0: S::one(),
                c0r1: S::zero(),
                c0r2: shear_x,
                c0r3: S::zero(),
                c1r0: S::zero(),
                c1r1: S::one(),
                c1r2: shear_y,
                c1r3: S::zero(),
                c2r0: S::zero(),
                c2r1: S::zero(),
                c2r2: S::one(),
                c2r3: S::zero(),
                c3r0: S::zero(),
                c3r1: S::zero(),
                c3r2: S::zero(),
                c3r3: S::one(),
            },
        }
    }

    /// The homogeneous matrix.
    pub fn matrix(&self) -> (r: &Matrix4x4<S>)
        ensures
            *r == self.matrix,
    {
        &self.matrix
    }

    /// Converts to a general affine transformation with the same matrix.
    pub fn to_transform3d(&self) -> (r: Transform3D<S>)
        ensures
            r.matrix == self.matrix,
    {
        Transform3D::from_matrix_unchecked(self.matrix)
    }
}


/// The basic facts about products and sums of zero and one.
proof fn lemma_zero_one<S: Field>()
    ensures
        S::one_value().times(S::one_value()) == S::one_value(),
        S::one_value().times(S::zero_value()) == S::zero_value(),
        S::zero_value().times(S::one_value()) == S::zero_value(),
        S::zero_value().times(S::zero_value()) == S::zero_value(),
        S::one_value().minus(S::zero_value()) == S::one_value(),
        S::zero_value().minus(S::zero_value()) == S::zero_value(),
        S::one_value().plus(S::zero_value()) == S::one_value(),
        S::zero_value().plus(S::zero_value()) == S::zero_value(),
        S::zero_value().negated() == S::zero_value(),
{
    let (zero, one) = (S::zero_value(), S::one_value());
    S::law_times_one(one);
    S::law_times_one(zero);
    lemma_times_zero(one);
    lemma_times_zero(zero);
    S::law_minus(one, zero);
    S::law_minus(zero, zero);
    lemma_negated_zero::<S>();
    S::law_plus_zero(one);
    S::law_plus_zero(zero);
}

/// A shear of the plane along one axis keeps areas: its determinant is one.
pub proof fn lemma_shear2_determinant<S: Field>(shear: S)
    ensures
        Shear2::<S>::shearing_matrix(shear, S::zero_value()).determinant_value() == S::one_value(),
        Shear2::<S>::shearing_matrix(S::zero_value(), shear).determinant_value() == S::one_value(),
{
    let zero = S::zero_value();
    lemma_zero_one::<S>();
    lemma_times_zero(shear);
    lemma_zero_times(shear);
    S::law_times_one(shear);
    S::law_minus(zero, shear);
    lemma_zero_plus(shear.negated());
    lemma_zero_times(shear.negated());
}

/// A shear of space along one axis keeps volumes: its determinant is one.
pub proof fn lemma_shear3_determinant<S: Field>(a: S, b: S)
    ensures
        Shear3::<S>::shearing_matrix_x(a, b).determinant_value() == S::one_value(),
        Shear3::<S>::shearing_matrix_y(a, b).determinant_value() == S::one_value(),
        Shear3::<S>::shearing_matrix_z(a, b).determinant_value() == S::one_value(),
{
    let zero = S::zero_value();
    lemma_zero_one::<S>();
    lemma_times_zero(a);
    lemma_zero_times(a);
    S::law_times_one(a);
    lemma_one_times(a);
    lemma_times_zero(b);
    lemma_zero_times(b);
    S::law_times_one(b);
    lemma_one_times(b);
    S::law_minus(a, zero);
    S::law_minus(b, zero);
    S::law_plus_zero(a);
    S::law_plus_zero(b);
    S::law_minus(zero, a);
    S::law_minus(zero, b);
    lemma_zero_plus(a.negated());
    lemma_zero_plus(b.negated());
    lemma_times_zero(a.negated());
    lemma_times_zero(b.negated());
    lemma_zero_times(a.negated());
    lemma_zero_times(b.negated());
}


/// A scaling of the plane by factors other than zero is undone by the scaling
/// by their reciprocals.
pub proof fn lemma_scale2_reciprocal<S: Field>(sx: S, sy: S)
    requires
        !sx.vanishes(),
        !sy.vanishes(),
    ensures
        ({
            let one = S::one_value();
            Scale2::<S>::scaling_matrix(sx, sy).times(
                Scale2::<S>::scaling_matrix(one.over(sx), one.over(sy)),
            ) == Matrix3x3::<S>::identity_value()
        }),
{
    let one = S::one_value();
    lemma_zero_one::<S>();
    S::law_over(one, sx);
    S::law_over(one, sy);
    lemma_zero_times(one.over(sx));
    lemma_zero_times(one.over(sy));
    lemma_times_zero(sx);
    lemma_times_zero(sy);
    lemma_zero_plus(one);
}

/// A scaling of space by factors other than zero is undone by the scaling by
/// their reciprocals.
pub proof fn lemma_scale3_reciprocal<S: Field>(sx: S, sy: S, sz: S)
    requires
        !sx.vanishes(),
        !sy.vanishes(),
        !sz.vanishes(),
    ensures
        ({
            let one = S::one_value();
            Scale3::<S>::scaling_matrix(sx, sy, sz).times(
                Scale3::<S>::scaling_matrix(one.over(sx), one.over(sy), one.over(sz)),
            ) == Matrix4x4::<S>::identity_value()
        }),
{
    let one = S::one_value();
    lemma_zero_one::<S>();
    S::law_over(one, sx);
    S::law_over(one, sy);
    S::law_over(one, sz);
    lemma_zero_times(one.over(sx));
    lemma_zero_times(one.over(sy));
    lemma_zero_times(one.over(sz));
    lemma_times_zero(sx);
    lemma_times_zero(sy);
    lemma_times_zero(sz);
    lemma_zero_plus(one);
}

} // verus!
