//! Euler angles and the rotation matrices they stand for.

use crate::algebra::{
    lemma_negated_plus, lemma_negated_times, lemma_negated_twice, lemma_negated_zero,
    lemma_one_times, lemma_times_negated, lemma_times_zero, lemma_zero_plus, lemma_zero_times,
};
use crate::determinant::lemma_swap_factors;
use crate::angle::Radians;
use crate::matrix::{Matrix3x3, Matrix4x4};
use crate::rotation::{lemma_rotation3_product_is_rotation, Rotation3};
use crate::scalar::{Field, ScalarFloat};
use vstd::prelude::*;

verus! {

/// Three angles of rotation about the coordinate axes: `x` about the x-axis
/// (roll), `y` about the y-axis (yaw), `z` about the z-axis (pitch). The
/// rotation about z is applied first and the rotation about x last.
#[derive(Clone, Copy, Debug, PartialEq)]
pub struct EulerAngles<A> {
    pub x: A,
    pub y: A,
    pub z: A,
}

impl<A: Copy> EulerAngles<A> {
    pub fn new(x: A, y: A, z: A) -> (r: Self)
        ensures
            r == (EulerAngles { x, y, z }),
    {
        EulerAngles { x, y, z }
    }
}

impl<S: ScalarFloat> EulerAngles<Radians<S>> {
    /// The product `R_x(roll) R_y(yaw) R_z(pitch)` of the three axis
    /// rotations, written out in sines and cosines.
    pub open spec fn rotation_matrix(self) -> Matrix3x3<S> {
        let (sr, cr) = (self.x.0.sine(), self.x.0.cosine());
        let (sy, cy) = (self.y.0.sine(), self.y.0.cosine());
        let (sp, cp) = (self.z.0.sine(), self.z.0.cosine());
        Matrix3x3 {
            c0r0: cy.times(cp),
            c0r1: cr.times(sp).plus(cp.times(sy).times(sr)),
            c0r2: sp.times(sr).minus(cp.times(cr).times(sy)),
            c1r0: cy.negated().times(sp),
            c1r1: cp.times(cr).minus(sp.times(sy).times(sr)),
            c1r2: cp.times(sr).plus(cr.times(sp).times(sy)),
            c2r0: sy,
            c2r1: cy.negated().times(sr),
            c2r2: cy.times(cr),
        }
    }

    /// The rotation matrix as a homogeneous matrix.
    pub open spec fn affine_matrix(self) -> Matrix4x4<S> {
        let m = self.rotation_matrix();
        Matrix4x4 {
            c0r0: m.c0r0,
            c0r1: m.c0r1,
            c0r2: m.c0r2,
            c0r3: S::zero_value(),
            c1r0: m.c1r0,
            c1r1: m.c1r1,
            c1r2: m.c1r2,
            c1r3: S::zero_value(),
            c2r0: m.c2r0,
            c2r1: m.c2r1,
            c2r2: m.c2r2,
            c2r3: S::zero_value(),
            c3r0: S::zero_value(),
            c3r1: S::zero_value(),
            c3r2: S::zero_value(),
            c3r3: S::one_value(),
        }
    }

    /// Writes the rotation as a matrix.
    pub fn to_matrix(&self) -> (r: Matrix3x3<S>)
        ensures
            r == self.rotation_matrix(),
    {
        let sr = self.x.0.sin();
        let cr = self.x.0.cos();
        let sy = self.y.0.sin();
        let cy = self.y.0.cos();
        let sp = self.z.0.sin();
        let cp = self.z.0.cos();
        Matrix3x3 {
            c0r0: cy.mul(cp),
            c0r1: cr.mul(sp).add(cp.mul(sy).mul(sr)),
            c0r2: sp.mul(sr).sub(cp.mul(cr).mul(sy)),
            c1r0: cy.neg().mul(sp),
            c1r1: cp.mul(cr).sub(sp.mul(sy).mul(sr)),
            c1r2: cp.mul(sr).add(cr.mul(sp).mul(sy)),
            c2r0: sy,
            c2r1: cy.neg().mul(sr),
            c2r2: cy.mul(cr),
        }
    }

    /// Writes the rotation as a homogeneous matrix.
    pub fn to_affine_matrix(&self) -> (r: Matrix4x4<S>)
        ensures
            r == self.affine_matrix(),
    {
        let m = self.to_matrix();
        Matrix4x4 {
            c0r0: m.c0r0,
            c0r1: m.c0r1,
            c0r2: m.c0r2,
            c0r3: S::zero(),
            c1r0: m.c1r0,
            c1r1: m.c1r1,
            c1r2: m.c1r2,
            c1r3: S::zero(),
            c2r0: m.c2r0,
            c2r1: m.c2r1,
            c2r2: m.c2r2,
            c2r3: S::zero(),
            c3r0: S::zero(),
            c3r1: S::zero(),
            c3r2: S::zero(),
            c3r3: S::one(),
        }
    }
}

impl<S: ScalarFloat> Matrix3x3<S> {
    /// Builds the rotation matrix of a set of Euler angles.
    pub fn from_euler_angles(euler_angles: &EulerAngles<Radians<S>>) -> (r: Self)
        ensures
            r == euler_angles.rotation_matrix(),
    {
        let euler_radians = EulerAngles::new(euler_angles.x, euler_angles.y, euler_angles.z);
        euler_radians.to_matrix()
    }
}

impl<S: ScalarFloat> Matrix4x4<S> {
    /// Builds the homogeneous rotation matrix of a set of Euler angles.
    pub fn from_euler_angles(euler_angles: &EulerAngles<Radians<S>>) -> (r: Self)
        ensures
            r == euler_angles.affine_matrix(),
    {
        let euler_radians = EulerAngles::new(euler_angles.x, euler_angles.y, euler_angles.z);
        euler_radians.to_affine_matrix()
    }
}

/// The rotation by `angle` about the x-axis.
pub open spec fn about_x<S: ScalarFloat>(angle: Radians<S>) -> Rotation3<S> {
    let (zero, one) = (S::zero_value(), S::one_value());
    let (sin, cos) = (angle.0.sine(), angle.0.cosine());
    Rotation3 {
        matrix: Matrix3x3 {
            c0r0: one,
            c0r1: zero,
            c0r2: zero,
            c1r0: zero,
            c1r1: cos,
            c1r2: sin,
            c2r0: zero,
            c2r1: sin.negated(),
            c2r2: cos,
        },
    }
}

/// The rotation by `angle` about the y-axis.
pub open spec fn about_y<S: ScalarFloat>(angle: Radians<S>) -> Rotation3<S> {
    let (zero, one) = (S::zero_value(), S::one_value());
    let (sin, cos) = (angle.0.sine(), angle.0.cosine());
    Rotation3 {
        matrix: Matrix3x3 {
            c0r0: cos,
            c0r1: zero,
            c0r2: sin.negated(),
            c1r0: zero,
            c1r1: one,
            c1r2: zero,
            c2r0: sin,
            c2r1: zero,
            c2r2: cos,
        },
    }
}

/// The rotation by `angle` about the z-axis.
pub open spec fn about_z<S: ScalarFloat>(angle: Radians<S>) -> Rotation3<S> {
    let (zero, one) = (S::zero_value(), S::one_value());
    let (sin, cos) = (angle.0.sine(), angle.0.cosine());
    Rotation3 {
        matrix: Matrix3x3 {
            c0r0: cos,
            c0r1: sin,
            c0r2: zero,
            c1r0: sin.negated(),
            c1r1: cos,
            c1r2: zero,
            c2r0: zero,
            c2r1: zero,
            c2r2: one,
        },
    }
}

/// A rotation about a coordinate axis is a rotation, where the squares of the
/// cosine and the sine of its angle sum to one.
pub proof fn lemma_axis_rotations_are_rotations<S: Field + ScalarFloat>(angle: Radians<S>)
    requires
        angle.0.cosine().times(angle.0.cosine()).plus(angle.0.sine().times(angle.0.sine()))
            == S::one_value(),
    ensures
        about_x(angle).is_rotation(),
        about_y(angle).is_rotation(),
        about_z(angle).is_rotation(),
{
    let (zero, one) = (S::zero_value(), S::one_value());
    let (s, c) = (angle.0.sine(), angle.0.cosine());
    let n = s.negated();
    // products and sums with zero and one
    S::law_times_one(one);
    S::law_times_one(zero);
    S::law_times_one(c);
    S::law_times_one(s);
    lemma_one_times(c);
    lemma_one_times(n);
    lemma_times_zero(zero);
    lemma_times_zero(one);
    lemma_times_zero(c);
    lemma_times_zero(s);
    lemma_times_zero(n);
    lemma_zero_times(c);
    lemma_zero_times(s);
    lemma_zero_times(n);
    S::law_plus_zero(zero);
    S::law_plus_zero(one);
    S::law_plus_zero(c);
    lemma_zero_plus(one);
    lemma_zero_plus(s);
    lemma_negated_zero::<S>();
    S::law_minus(zero, zero);
    S::law_minus(c, zero);
    S::law_minus(zero, s);
    S::law_minus(zero, n);
    lemma_zero_plus(n);
    lemma_negated_twice(s);
    // c c + s s = 1 in its variants
    let (cc, ss) = (c.times(c), s.times(s));
    lemma_negated_times(s, n);
    lemma_times_negated(s, s);
    lemma_negated_times(s, s);
    lemma_negated_twice(ss);
    S::law_plus_commutes(ss, cc);
    S::law_minus(cc, n.times(s));
    S::law_plus_zero(cc);
    S::law_plus_zero(ss);
    lemma_zero_plus(cc);
    lemma_zero_plus(ss);
    // c s - s c = 0 in its variants
    S::law_times_commutes(c, s);
    lemma_times_negated(c, s);
    lemma_negated_times(s, c);
    lemma_negated_plus(c.times(s));
    S::law_plus_negated(c.times(s));
    S::law_plus_zero(c.times(s));
    lemma_zero_plus(c.times(s).negated());
}

/// The rotation matrix of a set of Euler angles is the product of the three
/// rotations about the coordinate axes: about x last, about z first.
pub proof fn lemma_euler_angles_factorize<S: Field + ScalarFloat>(angles: EulerAngles<Radians<S>>)
    ensures
        about_x(angles.x).times(about_y(angles.y)).times(about_z(angles.z)).matrix
            == angles.rotation_matrix(),
{
    let (sr, cr) = (angles.x.0.sine(), angles.x.0.cosine());
    let (sy, cy) = (angles.y.0.sine(), angles.y.0.cosine());
    let (sp, cp) = (angles.z.0.sine(), angles.z.0.cosine());
    lemma_one_times(cy);
    lemma_zero_times(S::zero_value());
    S::law_plus_zero(cy);
    lemma_zero_times(sy.negated());
    S::law_plus_zero(cy);
    S::law_times_commutes(cy, cp);
    lemma_times_zero(S::one_value());
    lemma_zero_times(S::one_value());
    lemma_zero_plus(S::zero_value());
    lemma_zero_plus(S::zero_value());
    lemma_zero_times(sp);
    S::law_plus_zero(cp.times(cy));
    lemma_one_times(sy);
    S::law_plus_zero(sy);
    lemma_zero_times(cy);
    S::law_plus_zero(sy);
    lemma_times_zero(sy);
    S::law_plus_zero(cp.times(cy));
    S::law_times_commutes(cy, cp);
    lemma_times_zero(cr);
    lemma_zero_plus(S::zero_value());
    lemma_negated_times(sr, sy.negated());
    lemma_times_negated(sr, sy);
    lemma_negated_twice(sr.times(sy));
    lemma_zero_plus(sr.times(sy));
    S::law_times_associates(sr, sy, cp);
    S::law_times_commutes(sy, cp);
    lemma_swap_factors(sr, cp, sy);
    S::law_times_one(cr);
    lemma_zero_plus(cr);
    lemma_times_zero(sr.negated());
    S::law_plus_zero(cr);
    S::law_plus_commutes(cp.times(sr.times(sy)), cr.times(sp));
    lemma_zero_times(sy);
    lemma_zero_plus(S::zero_value());
    lemma_negated_times(sr, cy);
    S::law_times_commutes(sr, cy);
    lemma_zero_plus(cy.times(sr).negated());
    lemma_times_zero(cy.times(sr).negated());
    let t0 = cr.times(sp).plus(cp.times(sr.times(sy)));
    S::law_plus_zero(t0);
    S::law_times_associates(cp, sy, sr);
    S::law_times_commutes(sy, sr);
    lemma_times_zero(sr);
    lemma_zero_plus(S::zero_value());
    lemma_times_negated(cr, sy);
    lemma_zero_plus(cr.times(sy).negated());
    lemma_negated_times(cr.times(sy), cp);
    S::law_times_associates(cr, sy, cp);
    S::law_times_commutes(sy, cp);
    lemma_swap_factors(cr, cp, sy);
    S::law_times_one(sr);
    lemma_zero_plus(sr);
    S::law_plus_zero(sr);
    S::law_times_commutes(sr, sp);
    let t1 = cp.times(cr.times(sy)).negated();
    S::law_plus_commutes(t1, sp.times(sr));
    lemma_zero_plus(S::zero_value());
    lemma_zero_plus(cr.times(cy));
    lemma_times_zero(cr.times(cy));
    S::law_plus_zero(sp.times(sr).plus(t1));
    S::law_minus(sp.times(sr), cp.times(cr).times(sy));
    S::law_times_associates(cp, cr, sy);
    lemma_times_negated(cy, sp);
    lemma_zero_times(cp);
    S::law_plus_zero(cy.times(sp).negated());
    S::law_plus_zero(cy.times(sp).negated());
    lemma_negated_times(cy, sp);
    lemma_times_negated(sr.times(sy), sp);
    S::law_times_associates(sr, sy, sp);
    S::law_times_commutes(sy, sp);
    lemma_swap_factors(sr, sp, sy);
    S::law_times_commutes(cr, cp);
    let t2 = sp.times(sr.times(sy)).negated();
    S::law_plus_commutes(t2, cp.times(cr));
    S::law_plus_zero(cp.times(cr).plus(t2));
    S::law_minus(cp.times(cr), sp.times(sy).times(sr));
    S::law_times_associates(sp, sy, sr);
    S::law_times_commutes(sy, sr);
    lemma_negated_times(cr.times(sy), sp.negated());
    lemma_times_negated(cr.times(sy), sp);
    lemma_negated_twice(cr.times(sy).times(sp));
    S::law_times_associates(cr, sy, sp);
    S::law_times_commutes(sy, sp);
    S::law_times_commutes(sr, cp);
    S::law_plus_commutes(cr.times(sp.times(sy)), cp.times(sr));
    let t3 = cp.times(sr).plus(cr.times(sp.times(sy)));
    S::law_plus_zero(t3);
    S::law_times_associates(cr, sp, sy);
    lemma_times_zero(cy);
    lemma_zero_times(S::zero_value());
    lemma_zero_plus(S::zero_value());
    S::law_times_one(sy);
    lemma_zero_plus(sy);
    lemma_times_zero(sr.times(sy));
    lemma_times_zero(cr);
    lemma_zero_plus(S::zero_value());
    lemma_negated_times(cy.times(sr), S::one_value());
    S::law_times_one(cy.times(sr));
    lemma_zero_plus(cy.times(sr).negated());
    lemma_negated_times(cy, sr);
    lemma_times_zero(cr.times(sy).negated());
    lemma_times_zero(sr);
    lemma_zero_plus(S::zero_value());
    S::law_times_one(cr.times(cy));
    lemma_zero_plus(cr.times(cy));
    S::law_times_commutes(cy, cr);
}

/// The rotation matrix of a set of Euler angles is a rotation matrix, where
/// for each angle the squares of the cosine and the sine sum to one.
pub proof fn lemma_euler_angles_give_a_rotation<S: Field + ScalarFloat>(
    angles: EulerAngles<Radians<S>>,
)
    requires
        angles.x.0.cosine().times(angles.x.0.cosine()).plus(
            angles.x.0.sine().times(angles.x.0.sine()),
        ) == S::one_value(),
        angles.y.0.cosine().times(angles.y.0.cosine()).plus(
            angles.y.0.sine().times(angles.y.0.sine()),
        ) == S::one_value(),
        angles.z.0.cosine().times(angles.z.0.cosine()).plus(
            angles.z.0.sine().times(angles.z.0.sine()),
        ) == S::one_value(),
    ensures
        (Rotation3 { matrix: angles.rotation_matrix() }).is_rotation(),
{
    lemma_axis_rotations_are_rotations(angles.x);
    lemma_axis_rotations_are_rotations(angles.y);
    lemma_axis_rotations_are_rotations(angles.z);
    lemma_rotation3_product_is_rotation(about_x(angles.x), about_y(angles.y));
    lemma_rotation3_product_is_rotation(
        about_x(angles.x).times(about_y(angles.y)),
        about_z(angles.z),
    );
    lemma_euler_angles_factorize(angles);
}

} // verus!
