//! Householder's reflection is an involution.
//!
//! For a normal `n` of length one, the matrix `I - 2 n n^T` sends a vector
//! `v` to `v - 2 (n . v) n`. Doing so twice gives `v` back, so the matrix is
//! its own inverse.

use crate::affine::{Reflection2, Reflection3};
use crate::algebra::{
    lemma_distributes_right, lemma_medial, lemma_negated_plus, lemma_negated_sum,
    lemma_negated_times, lemma_negated_twice, lemma_negated_zero, lemma_one_times,
    lemma_swap_terms, lemma_times_negated, lemma_times_zero, lemma_zero_plus, lemma_zero_times,
};
use crate::determinant::{lemma_sum3_minus, lemma_swap_factors, lemma_times_minus};
use crate::matrix::{Matrix3x3, Matrix4x4};
use crate::scalar::Field;
use crate::vector::{Vector2, Vector3};
use vstd::prelude::*;

verus! {

/// `(a - b) * c = a * c - b * c`.
proof fn lemma_minus_times<S: Field>(a: S, b: S, c: S)
    ensures
        a.minus(b).times(c) == a.times(c).minus(b.times(c)),
{
    S::law_times_commutes(a.minus(b), c);
    lemma_times_minus(c, a, b);
    S::law_times_commutes(c, a);
    S::law_times_commutes(c, b);
}

/// `(p - a) + (-b) = p - (a + b)`.
proof fn lemma_minus_then_negated<S: Field>(p: S, a: S, b: S)
    ensures
        p.minus(a).plus(b.negated()) == p.minus(a.plus(b)),
{
    S::law_minus(p, a);
    S::law_minus(p, a.plus(b));
    lemma_negated_sum(a, b);
    S::law_plus_associates(p, a.negated(), b.negated());
}

/// `(a - b) - (-b) = a`.
proof fn lemma_minus_undone<S: Field>(a: S, b: S)
    ensures
        a.minus(b).minus(b.negated()) == a,
{
    S::law_minus(a, b);
    S::law_minus(a.minus(b), b.negated());
    lemma_negated_twice(b);
    S::law_plus_associates(a, b.negated(), b);
    lemma_negated_plus(b);
    S::law_plus_zero(a);
}

/// `d - (1 + 1) * d = -d`.
proof fn lemma_minus_double<S: Field>(d: S)
    ensures
        d.minus(S::one_value().plus(S::one_value()).times(d)) == d.negated(),
{
    let one = S::one_value();
    lemma_distributes_right(one, one, d);
    lemma_one_times(d);
    S::law_minus(d, d.plus(d));
    lemma_negated_sum(d, d);
    S::law_plus_associates(d, d.negated(), d.negated());
    lemma_negated_plus(d);
    S::law_plus_negated(d);
    lemma_zero_plus(d.negated());
}

/// The mirror image of `v` in the line through the origin with normal `n`:
/// `v - 2 (n . v) n`.
pub open spec fn mirrored2<S: Field>(n: Vector2<S>, v: Vector2<S>) -> Vector2<S> {
    let two = S::one_value().plus(S::one_value());
    v.minus(n.scaled_by(two).scaled(n.dot_product(v)))
}

/// Householder's matrix sends a vector to its mirror image, and leaves the
/// last homogeneous coordinate as it is.
pub proof fn lemma_householder2_applies<S: Field>(n: Vector2<S>, v: Vector2<S>, w: S)
    ensures
        Reflection2::householder(n).apply(v.extended(w)) == mirrored2(n, v).extended(w),
{
    let two = S::one_value().plus(S::one_value());
    let d = n.dot_product(v);
    // the x-coordinate
    lemma_minus_times(S::one_value(), two.times(n.x).times(n.x), v.x);
    lemma_one_times(v.x);
    lemma_negated_times(two, n.x);
    S::law_times_associates(two.times(n.x), n.x, v.x);
    lemma_negated_times(two.times(n.x), n.y);
    lemma_negated_times(two.times(n.x).times(n.y), v.y);
    S::law_times_associates(two.times(n.x), n.y, v.y);
    S::law_distributes(two.times(n.x), n.x.times(v.x), n.y.times(v.y));
    lemma_minus_then_negated(v.x, two.times(n.x).times(n.x.times(v.x)), two.times(n.x).times(n.y.times(v.y)));
    lemma_zero_times(w);
    S::law_plus_zero(v.x.minus(two.times(n.x).times(d)));
    // the y-coordinate
    lemma_minus_times(S::one_value(), two.times(n.y).times(n.y), v.y);
    lemma_one_times(v.y);
    lemma_negated_times(two, n.y);
    lemma_negated_times(two, n.x);
    lemma_negated_times(two.times(n.x), n.y);
    S::law_times_associates(two, n.x, n.y);
    S::law_times_commutes(n.x, n.y);
    S::law_times_associates(two, n.y, n.x);
    lemma_negated_times(two.times(n.y).times(n.x), v.x);
    S::law_times_associates(two.times(n.y), n.x, v.x);
    S::law_times_associates(two.times(n.y), n.y, v.y);
    S::law_distributes(two.times(n.y), n.x.times(v.x), n.y.times(v.y));
    S::law_plus_commutes(two.times(n.y).times(n.x.times(v.x)).negated(), v.y.minus(two.times(n.y).times(n.y.times(v.y))));
    lemma_minus_then_negated(v.y, two.times(n.y).times(n.y.times(v.y)), two.times(n.y).times(n.x.times(v.x)));
    S::law_plus_commutes(two.times(n.y).times(n.y.times(v.y)), two.times(n.y).times(n.x.times(v.x)));
    lemma_zero_times(w);
    S::law_plus_zero(v.y.minus(two.times(n.y).times(d)));
    // the last coordinate
    lemma_zero_times(v.x);
    lemma_zero_times(v.y);
    S::law_plus_zero(S::zero_value());
    lemma_one_times(w);
    lemma_zero_plus(w);
}

/// The mirror image of the mirror image is the vector itself, for a normal
/// of length one.
pub proof fn lemma_mirrored2_twice<S: Field>(n: Vector2<S>, v: Vector2<S>)
    requires
        n.dot_product(n) == S::one_value(),
    ensures
        mirrored2(n, mirrored2(n, v)) == v,
{
    let two = S::one_value().plus(S::one_value());
    let m = n.scaled_by(two);
    let d = n.dot_product(v);
    // n dotted with the image of v is d - (n . m) d, and n . m = two
    lemma_times_minus(n.x, v.x, m.x.times(d));
    S::law_times_associates(n.x, m.x, d);
    lemma_swap_factors(n.x, two, n.x);
    lemma_times_minus(n.y, v.y, m.y.times(d));
    S::law_times_associates(n.y, m.y, d);
    lemma_swap_factors(n.y, two, n.y);
    lemma_minus_sum2(n.x.times(v.x), n.x.times(m.x).times(d), n.y.times(v.y), n.y.times(m.y).times(d));
    lemma_distributes_right(n.x.times(m.x), n.y.times(m.y), d);
    S::law_distributes(two, n.x.times(n.x), n.y.times(n.y));
    S::law_times_one(two);
    lemma_minus_double(d);
    lemma_times_negated(m.x, d);
    lemma_minus_undone(v.x, m.x.times(d));
    lemma_times_negated(m.y, d);
    lemma_minus_undone(v.y, m.y.times(d));
}

/// Householder's matrix is its own inverse, for a normal of length one.
pub proof fn lemma_reflection2_is_involution<S: Field>(normal: Vector2<S>)
    requires
        normal.dot_product(normal) == S::one_value(),
    ensures
        Reflection2::householder(normal).times(Reflection2::householder(normal)) == Matrix3x3::<S>::identity_value(),
{
    let (zero, one) = (S::zero_value(), S::one_value());
    let h = Reflection2::householder(normal);
    // each of the first columns is the mirror image of a unit vector
    let e0 = Vector2 { x: one, y: zero };
    let e1 = Vector2 { x: zero, y: one };
    lemma_householder2_applies(normal, e0, zero);
    lemma_householder2_applies(normal, e1, zero);
    S::law_times_one(zero);
    lemma_times_zero(zero);
    lemma_times_zero(one);
    S::law_times_one(one);
    S::law_plus_zero(zero);
    S::law_plus_zero(one);
    lemma_zero_plus(one);
    S::law_times_one(h.c0r0);
    lemma_times_zero(h.c0r0);
    S::law_plus_zero(h.c0r0);
    lemma_zero_plus(h.c0r0);
    S::law_times_one(h.c1r0);
    lemma_times_zero(h.c1r0);
    S::law_plus_zero(h.c1r0);
    lemma_zero_plus(h.c1r0);
    S::law_times_one(h.c0r1);
    lemma_times_zero(h.c0r1);
    S::law_plus_zero(h.c0r1);
    lemma_zero_plus(h.c0r1);
    S::law_times_one(h.c1r1);
    lemma_times_zero(h.c1r1);
    S::law_plus_zero(h.c1r1);
    lemma_zero_plus(h.c1r1);
    // applying the matrix again mirrors them back
    lemma_householder2_applies(normal, mirrored2(normal, e0), zero);
    lemma_mirrored2_twice(normal, e0);
    lemma_householder2_applies(normal, mirrored2(normal, e1), zero);
    lemma_mirrored2_twice(normal, e1);
    // the last column is fixed
}

/// The mirror image of `v` in the plane through the origin with normal `n`:
/// `v - 2 (n . v) n`.
pub open spec fn mirrored3<S: Field>(n: Vector3<S>, v: Vector3<S>) -> Vector3<S> {
    let two = S::one_value().plus(S::one_value());
    v.minus(n.scaled_by(two).scaled(n.dot_product(v)))
}

/// Householder's matrix sends a vector to its mirror image, and leaves the
/// last homogeneous coordinate as it is.
pub proof fn lemma_householder3_applies<S: Field>(n: Vector3<S>, v: Vector3<S>, w: S)
    ensures
        Reflection3::householder(n).apply(v.extended(w)) == mirrored3(n, v).extended(w),
{
    let two = S::one_value().plus(S::one_value());
    let d = n.dot_product(v);
    // the x-coordinate
    lemma_minus_times(S::one_value(), two.times(n.x).times(n.x), v.x);
    lemma_one_times(v.x);
    lemma_negated_times(two, n.x);
    S::law_times_associates(two.times(n.x), n.x, v.x);
    lemma_negated_times(two.times(n.x), n.y);
    lemma_negated_times(two.times(n.x).times(n.y), v.y);
    S::law_times_associates(two.times(n.x), n.y, v.y);
    lemma_negated_times(two.times(n.x), n.z);
    lemma_negated_times(two.times(n.x).times(n.z), v.z);
    S::law_times_associates(two.times(n.x), n.z, v.z);
    S::law_distributes(two.times(n.x), n.x.times(v.x).plus(n.y.times(v.y)), n.z.times(v.z));
    S::law_distributes(two.times(n.x), n.x.times(v.x), n.y.times(v.y));
    lemma_minus_then_negated(v.x, two.times(n.x).times(n.x.times(v.x)), two.times(n.x).times(n.y.times(v.y)));
    lemma_minus_then_negated(v.x, two.times(n.x).times(n.x.times(v.x)).plus(two.times(n.x).times(n.y.times(v.y))), two.times(n.x).times(n.z.times(v.z)));
    lemma_zero_times(w);
    S::law_plus_zero(v.x.minus(two.times(n.x).times(d)));
    // the y-coordinate
    lemma_minus_times(S::one_value(), two.times(n.y).times(n.y), v.y);
    lemma_one_times(v.y);
    lemma_negated_times(two, n.y);
    lemma_negated_times(two, n.x);
    lemma_negated_times(two.times(n.x), n.y);
    S::law_times_associates(two, n.x, n.y);
    S::law_times_commutes(n.x, n.y);
    S::law_times_associates(two, n.y, n.x);
    lemma_negated_times(two.times(n.y).times(n.x), v.x);
    S::law_times_associates(two.times(n.y), n.x, v.x);
    S::law_times_associates(two.times(n.y), n.y, v.y);
    lemma_negated_times(two.times(n.y), n.z);
    lemma_negated_times(two.times(n.y).times(n.z), v.z);
    S::law_times_associates(two.times(n.y), n.z, v.z);
    S::law_distributes(two.times(n.y), n.x.times(v.x).plus(n.y.times(v.y)), n.z.times(v.z));
    S::law_distributes(two.times(n.y), n.x.times(v.x), n.y.times(v.y));
    S::law_plus_commutes(two.times(n.y).times(n.x.times(v.x)).negated(), v.y.minus(two.times(n.y).times(n.y.times(v.y))));
    lemma_minus_then_negated(v.y, two.times(n.y).times(n.y.times(v.y)), two.times(n.y).times(n.x.times(v.x)));
    S::law_plus_commutes(two.times(n.y).times(n.y.times(v.y)), two.times(n.y).times(n.x.times(v.x)));
    lemma_minus_then_negated(v.y, two.times(n.y).times(n.x.times(v.x)).plus(two.times(n.y).times(n.y.times(v.y))), two.times(n.y).times(n.z.times(v.z)));
    lemma_zero_times(w);
    S::law_plus_zero(v.y.minus(two.times(n.y).times(d)));
    // the z-coordinate
    lemma_minus_times(S::one_value(), two.times(n.z).times(n.z), v.z);
    lemma_one_times(v.z);
    lemma_negated_times(two, n.z);
    lemma_negated_times(two, n.x);
    lemma_negated_times(two.times(n.x), n.z);
    S::law_times_associates(two, n.x, n.z);
    S::law_times_commutes(n.x, n.z);
    S::law_times_associates(two, n.z, n.x);
    lemma_negated_times(two.times(n.z).times(n.x), v.x);
    S::law_times_associates(two.times(n.z), n.x, v.x);
    lemma_negated_times(two, n.y);
    lemma_negated_times(two.times(n.y), n.z);
    S::law_times_associates(two, n.y, n.z);
    S::law_times_commutes(n.y, n.z);
    S::law_times_associates(two, n.z, n.y);
    lemma_negated_times(two.times(n.z).times(n.y), v.y);
    S::law_times_associates(two.times(n.z), n.y, v.y);
    S::law_times_associates(two.times(n.z), n.z, v.z);
    S::law_distributes(two.times(n.z), n.x.times(v.x).plus(n.y.times(v.y)), n.z.times(v.z));
    S::law_distributes(two.times(n.z), n.x.times(v.x), n.y.times(v.y));
    lemma_negated_sum(two.times(n.z).times(n.x.times(v.x)), two.times(n.z).times(n.y.times(v.y)));
    S::law_plus_commutes(two.times(n.z).times(n.x.times(v.x)).plus(two.times(n.z).times(n.y.times(v.y))).negated(), v.z.minus(two.times(n.z).times(n.z.times(v.z))));
    lemma_minus_then_negated(v.z, two.times(n.z).times(n.z.times(v.z)), two.times(n.z).times(n.x.times(v.x)).plus(two.times(n.z).times(n.y.times(v.y))));
    S::law_plus_commutes(two.times(n.z).times(n.z.times(v.z)), two.times(n.z).times(n.x.times(v.x)).plus(two.times(n.z).times(n.y.times(v.y))));
    lemma_zero_times(w);
    S::law_plus_zero(v.z.minus(two.times(n.z).times(d)));
    // the last coordinate
    lemma_zero_times(v.x);
    lemma_zero_times(v.y);
    lemma_zero_times(v.z);
    S::law_plus_zero(S::zero_value());
    lemma_one_times(w);
    lemma_zero_plus(w);
}

/// The mirror image of the mirror image is the vector itself, for a normal
/// of length one.
pub proof fn lemma_mirrored3_twice<S: Field>(n: Vector3<S>, v: Vector3<S>)
    requires
        n.dot_product(n) == S::one_value(),
    ensures
        mirrored3(n, mirrored3(n, v)) == v,
{
    let two = S::one_value().plus(S::one_value());
    let m = n.scaled_by(two);
    let d = n.dot_product(v);
    // n dotted with the image of v is d - (n . m) d, and n . m = two
    lemma_times_minus(n.x, v.x, m.x.times(d));
    S::law_times_associates(n.x, m.x, d);
    lemma_swap_factors(n.x, two, n.x);
    lemma_times_minus(n.y, v.y, m.y.times(d));
    S::law_times_associates(n.y, m.y, d);
    lemma_swap_factors(n.y, two, n.y);
    lemma_times_minus(n.z, v.z, m.z.times(d));
    S::law_times_associates(n.z, m.z, d);
    lemma_swap_factors(n.z, two, n.z);
    lemma_sum3_minus(n.x.times(v.x), n.y.times(v.y), n.z.times(v.z), n.x.times(m.x).times(d), n.y.times(m.y).times(d), n.z.times(m.z).times(d));
    lemma_distributes_right(n.x.times(m.x), n.y.times(m.y), d);
    lemma_distributes_right(n.x.times(m.x).plus(n.y.times(m.y)), n.z.times(m.z), d);
    S::law_distributes(two, n.x.times(n.x), n.y.times(n.y));
    S::law_distributes(two, n.x.times(n.x).plus(n.y.times(n.y)), n.z.times(n.z));
    S::law_times_one(two);
    lemma_minus_double(d);
    lemma_times_negated(m.x, d);
    lemma_minus_undone(v.x, m.x.times(d));
    lemma_times_negated(m.y, d);
    lemma_minus_undone(v.y, m.y.times(d));
    lemma_times_negated(m.z, d);
    lemma_minus_undone(v.z, m.z.times(d));
}

/// Householder's matrix is its own inverse, for a normal of length one.
pub proof fn lemma_reflection3_is_involution<S: Field>(normal: Vector3<S>)
    requires
        normal.dot_product(normal) == S::one_value(),
    ensures
        Reflection3::householder(normal).times(Reflection3::householder(normal)) == Matrix4x4::<S>::identity_value(),
{
    let (zero, one) = (S::zero_value(), S::one_value());
    let h = Reflection3::householder(normal);
    // each of the first columns is the mirror image of a unit vector
    let e0 = Vector3 { x: one, y: zero, z: zero };
    let e1 = Vector3 { x: zero, y: one, z: zero };
    let e2 = Vector3 { x: zero, y: zero, z: one };
    lemma_householder3_applies(normal, e0, zero);
    lemma_householder3_applies(normal, e1, zero);
    lemma_householder3_applies(normal, e2, zero);
    S::law_times_one(zero);
    lemma_times_zero(zero);
    lemma_times_zero(one);
    S::law_times_one(one);
    S::law_plus_zero(zero);
    S::law_plus_zero(one);
    lemma_zero_plus(one);
    S::law_times_one(h.c0r0);
    lemma_times_zero(h.c0r0);
    S::law_plus_zero(h.c0r0);
    lemma_zero_plus(h.c0r0);
    S::law_times_one(h.c1r0);
    lemma_times_zero(h.c1r0);
    S::law_plus_zero(h.c1r0);
    lemma_zero_plus(h.c1r0);
    S::law_times_one(h.c2r0);
    lemma_times_zero(h.c2r0);
    S::law_plus_zero(h.c2r0);
    lemma_zero_plus(h.c2r0);
    S::law_times_one(h.c0r1);
    lemma_times_zero(h.c0r1);
    S::law_plus_zero(h.c0r1);
    lemma_zero_plus(h.c0r1);
    S::law_times_one(h.c1r1);
    lemma_times_zero(h.c1r1);
    S::law_plus_zero(h.c1r1);
    lemma_zero_plus(h.c1r1);
    S::law_times_one(h.c2r1);
    lemma_times_zero(h.c2r1);
    S::law_plus_zero(h.c2r1);
    lemma_zero_plus(h.c2r1);
    S::law_times_one(h.c0r2);
    lemma_times_zero(h.c0r2);
    S::law_plus_zero(h.c0r2);
    lemma_zero_plus(h.c0r2);
    S::law_times_one(h.c1r2);
    lemma_times_zero(h.c1r2);
    S::law_plus_zero(h.c1r2);
    lemma_zero_plus(h.c1r2);
    S::law_times_one(h.c2r2);
    lemma_times_zero(h.c2r2);
    S::law_plus_zero(h.c2r2);
    lemma_zero_plus(h.c2r2);
    // applying the matrix again mirrors them back
    lemma_householder3_applies(normal, mirrored3(normal, e0), zero);
    lemma_mirrored3_twice(normal, e0);
    lemma_householder3_applies(normal, mirrored3(normal, e1), zero);
    lemma_mirrored3_twice(normal, e1);
    lemma_householder3_applies(normal, mirrored3(normal, e2), zero);
    lemma_mirrored3_twice(normal, e2);
    // the last column is fixed
}

/// `(a - b) + (c - e) = (a + c) - (b + e)`.
proof fn lemma_minus_sum2<S: Field>(a: S, b: S, c: S, e: S)
    ensures
        a.minus(b).plus(c.minus(e)) == a.plus(c).minus(b.plus(e)),
{
    S::law_minus(a, b);
    S::law_minus(c, e);
    S::law_minus(a.plus(c), b.plus(e));
    lemma_negated_sum(b, e);
    lemma_medial(a, b.negated(), c, e.negated());
}


/// The determinant of Householder's matrix is one less twice the squared
/// length of the normal.
pub proof fn lemma_householder2_determinant<S: Field>(n: Vector2<S>)
    ensures
        Reflection2::householder(n).determinant_value() == S::one_value().minus(
            S::one_value().plus(S::one_value()).times(n.dot_product(n)),
        ),
{
    let two = S::one_value().plus(S::one_value());
    let t0 = two.times(n.x).times(n.x);
    S::law_minus(S::one_value(), t0);
    S::law_times_commutes(two, n.x);
    S::law_times_associates(n.x, two, n.x);
    S::law_times_commutes(two, n.x);
    let t1 = two.times(n.y).times(n.y);
    let t2 = S::one_value().minus(t1).times(S::one_value());
    let t3 = S::zero_value().times(S::zero_value());
    S::law_minus(t2, t3);
    S::law_minus(S::one_value(), t1);
    S::law_times_commutes(two, n.y);
    S::law_times_associates(n.y, two, n.y);
    S::law_times_commutes(two, n.y);
    let t4 = n.y.times(n.y.times(two));
    lemma_distributes_right(S::one_value(), t4.negated(), S::one_value());
    lemma_one_times(S::one_value());
    lemma_negated_times(t4, S::one_value());
    S::law_times_one(t4);
    lemma_zero_times(S::zero_value());
    lemma_negated_zero::<S>();
    let t5 = S::one_value().plus(t4.negated());
    S::law_plus_zero(t5);
    let t6 = n.x.times(n.x.times(two));
    lemma_distributes_right(S::one_value(), t6.negated(), t5);
    S::law_distributes(S::one_value(), S::one_value(), t4.negated());
    lemma_one_times(S::one_value());
    lemma_times_negated(S::one_value(), t4);
    lemma_one_times(t4);
    S::law_distributes(t6.negated(), S::one_value(), t4.negated());
    lemma_negated_times(t6, S::one_value());
    S::law_times_one(t6);
    lemma_negated_times(t6, t4.negated());
    lemma_times_negated(t6, t4);
    lemma_negated_twice(t6.times(t4));
    S::law_times_associates(n.x, n.x.times(two), t4);
    S::law_times_associates(n.x, two, t4);
    lemma_swap_factors(two, n.y, n.y.times(two));
    lemma_swap_factors(two, n.y, two);
    let t7 = n.y.times(two.times(two));
    let t8 = n.x.times(n.x.times(n.y.times(t7)));
    S::law_plus_associates(S::one_value(), t4.negated(), t6.negated().plus(t8));
    lemma_swap_terms(t4.negated(), t6.negated(), t8);
    lemma_negated_times(two, n.x);
    S::law_times_commutes(two, n.x);
    lemma_negated_times(n.x.times(two), n.y);
    S::law_times_associates(n.x, two, n.y);
    S::law_times_commutes(two, n.y);
    let t9 = two.negated().times(n.x).times(n.y);
    S::law_minus(t3, t9.times(S::one_value()));
    let t10 = n.x.times(n.y.times(two));
    lemma_negated_times(t10, S::one_value());
    S::law_times_one(t10);
    lemma_negated_twice(t10);
    lemma_zero_plus(t10);
    lemma_negated_times(t10, t10);
    S::law_times_associates(n.x, n.y.times(two), t10);
    S::law_times_associates(n.y, two, t10);
    lemma_swap_factors(two, n.x, n.y.times(two));
    lemma_swap_factors(two, n.y, two);
    lemma_swap_factors(n.y, n.x, t7);
    let t11 = t6.negated().plus(t4.negated().plus(t8));
    S::law_plus_associates(S::one_value(), t11, t8.negated());
    S::law_plus_associates(t6.negated(), t4.negated().plus(t8), t8.negated());
    S::law_plus_associates(t4.negated(), t8, t8.negated());
    S::law_plus_negated(t8);
    S::law_plus_zero(t4.negated());
    let t12 = t9.times(S::zero_value());
    let t13 = S::one_value().minus(t1).times(S::zero_value());
    S::law_minus(t12, t13);
    lemma_times_zero(t10.negated());
    lemma_times_zero(t5);
    lemma_negated_zero::<S>();
    lemma_zero_plus(S::zero_value());
    lemma_zero_times(S::zero_value());
    let t14 = t6.negated().plus(t4.negated());
    S::law_plus_zero(S::one_value().plus(t14));
    let t15 = n.x.times(n.x).plus(n.y.times(n.y));
    S::law_minus(S::one_value(), two.times(t15));
    S::law_distributes(two, n.x.times(n.x), n.y.times(n.y));
    lemma_swap_factors(two, n.x, n.x);
    S::law_times_commutes(two, n.x);
    lemma_swap_factors(two, n.y, n.y);
    S::law_times_commutes(two, n.y);
    lemma_negated_sum(t6, t4);
}

/// A reflection turns orientation around: the determinant of Householder's
/// matrix is minus one, for a normal of length one.
pub proof fn lemma_reflection2_determinant<S: Field>(normal: Vector2<S>)
    requires
        normal.dot_product(normal) == S::one_value(),
    ensures
        Reflection2::householder(normal).determinant_value() == S::one_value().negated(),
{
    let one = S::one_value();
    lemma_householder2_determinant(normal);
    S::law_times_one(one.plus(one));
    S::law_minus(one, one.plus(one));
    lemma_negated_sum(one, one);
    S::law_plus_associates(one, one.negated(), one.negated());
    S::law_plus_negated(one);
    lemma_zero_plus(one.negated());
}

/// The determinant of Householder's matrix is one less twice the squared
/// length of the normal.
pub proof fn lemma_householder3_determinant<S: Field>(n: Vector3<S>)
    ensures
        Reflection3::householder(n).determinant_value() == S::one_value().minus(
            S::one_value().plus(S::one_value()).times(n.dot_product(n)),
        ),
{
    let two = S::one_value().plus(S::one_value());
    let t0 = two.times(n.x).times(n.x);
    let t1 = two.times(n.y).times(n.y);
    let t2 = S::one_value().minus(t0).times(S::one_value().minus(t1));
    let t3 = two.negated().times(n.x).times(n.y);
    let t4 = two.times(n.z).times(n.z);
    let t5 = S::one_value().minus(t4).times(S::one_value());
    let t6 = S::zero_value().times(S::zero_value());
    let t7 = t2.minus(t3.times(t3)).times(t5.minus(t6));
    let t8 = two.negated().times(n.y).times(n.z);
    let t9 = S::one_value().minus(t0).times(t8);
    let t10 = two.negated().times(n.x).times(n.z);
    let t11 = t8.times(S::one_value()).minus(t6);
    let t12 = t9.minus(t3.times(t10)).times(t11);
    let t13 = S::one_value().minus(t0).times(S::zero_value());
    let t14 = t3.times(S::zero_value());
    let t15 = t8.times(S::zero_value());
    let t16 = S::zero_value().times(S::one_value().minus(t4));
    let t17 = t13.minus(t14).times(t15.minus(t16));
    let t18 = S::one_value().minus(t1).times(t10);
    let t19 = t10.times(S::one_value());
    let t20 = t3.times(t8).minus(t18).times(t19.minus(t6));
    let t21 = t7.minus(t12).plus(t17).plus(t20);
    let t22 = S::one_value().minus(t1).times(S::zero_value());
    let t23 = t10.times(S::zero_value());
    let t24 = t14.minus(t22).times(t23.minus(t16));
    S::law_minus(t21, t24);
    S::law_minus(t7, t12);
    S::law_minus(t2, t3.times(t3));
    S::law_minus(S::one_value(), t0);
    S::law_times_commutes(two, n.x);
    S::law_times_associates(n.x, two, n.x);
    S::law_times_commutes(two, n.x);
    S::law_minus(S::one_value(), t1);
    S::law_times_commutes(two, n.y);
    S::law_times_associates(n.y, two, n.y);
    S::law_times_commutes(two, n.y);
    let t25 = n.x.times(n.x.times(two));
    let t26 = n.y.times(n.y.times(two));
    let t27 = S::one_value().plus(t26.negated());
    lemma_distributes_right(S::one_value(), t25.negated(), t27);
    S::law_distributes(S::one_value(), S::one_value(), t26.negated());
    lemma_one_times(S::one_value());
    lemma_times_negated(S::one_value(), t26);
    lemma_one_times(t26);
    S::law_distributes(t25.negated(), S::one_value(), t26.negated());
    lemma_negated_times(t25, S::one_value());
    S::law_times_one(t25);
    lemma_negated_times(t25, t26.negated());
    lemma_times_negated(t25, t26);
    lemma_negated_twice(t25.times(t26));
    S::law_times_associates(n.x, n.x.times(two), t26);
    S::law_times_associates(n.x, two, t26);
    lemma_swap_factors(two, n.y, n.y.times(two));
    lemma_swap_factors(two, n.y, two);
    let t28 = n.y.times(two.times(two));
    let t29 = n.x.times(n.y.times(t28));
    let t30 = t25.negated().plus(n.x.times(t29));
    S::law_plus_associates(S::one_value(), t26.negated(), t30);
    lemma_swap_terms(t26.negated(), t25.negated(), n.x.times(t29));
    lemma_negated_times(two, n.x);
    S::law_times_commutes(two, n.x);
    lemma_negated_times(n.x.times(two), n.y);
    S::law_times_associates(n.x, two, n.y);
    S::law_times_commutes(two, n.y);
    let t31 = n.x.times(n.y.times(two));
    lemma_negated_times(t31, t31.negated());
    lemma_times_negated(t31, t31);
    lemma_negated_twice(t31.times(t31));
    S::law_times_associates(n.x, n.y.times(two), t31);
    S::law_times_associates(n.y, two, t31);
    lemma_swap_factors(two, n.x, n.y.times(two));
    lemma_swap_factors(two, n.y, two);
    lemma_swap_factors(n.y, n.x, t28);
    let t32 = t26.negated().plus(n.x.times(t29));
    S::law_plus_associates(S::one_value(), t25.negated().plus(t32), n.x.times(t29).negated());
    S::law_plus_associates(t25.negated(), t32, n.x.times(t29).negated());
    S::law_plus_associates(t26.negated(), n.x.times(t29), n.x.times(t29).negated());
    S::law_plus_negated(n.x.times(t29));
    S::law_plus_zero(t26.negated());
    S::law_minus(t5, t6);
    S::law_minus(S::one_value(), t4);
    S::law_times_commutes(two, n.z);
    S::law_times_associates(n.z, two, n.z);
    S::law_times_commutes(two, n.z);
    let t33 = n.z.times(n.z.times(two));
    lemma_distributes_right(S::one_value(), t33.negated(), S::one_value());
    lemma_one_times(S::one_value());
    lemma_negated_times(t33, S::one_value());
    S::law_times_one(t33);
    lemma_zero_times(S::zero_value());
    lemma_negated_zero::<S>();
    let t34 = S::one_value().plus(t33.negated());
    S::law_plus_zero(t34);
    let t35 = t25.negated().plus(t26.negated());
    lemma_distributes_right(S::one_value(), t35, t34);
    S::law_distributes(S::one_value(), S::one_value(), t33.negated());
    lemma_one_times(S::one_value());
    lemma_times_negated(S::one_value(), t33);
    lemma_one_times(t33);
    lemma_distributes_right(t25.negated(), t26.negated(), t34);
    S::law_distributes(t25.negated(), S::one_value(), t33.negated());
    lemma_negated_times(t25, S::one_value());
    S::law_times_one(t25);
    lemma_negated_times(t25, t33.negated());
    lemma_times_negated(t25, t33);
    lemma_negated_twice(t25.times(t33));
    S::law_times_associates(n.x, n.x.times(two), t33);
    S::law_times_associates(n.x, two, t33);
    lemma_swap_factors(two, n.z, n.z.times(two));
    lemma_swap_factors(two, n.z, two);
    S::law_distributes(t26.negated(), S::one_value(), t33.negated());
    lemma_negated_times(t26, S::one_value());
    S::law_times_one(t26);
    lemma_negated_times(t26, t33.negated());
    lemma_times_negated(t26, t33);
    lemma_negated_twice(t26.times(t33));
    S::law_times_associates(n.y, n.y.times(two), t33);
    S::law_times_associates(n.y, two, t33);
    lemma_swap_factors(two, n.z, n.z.times(two));
    lemma_swap_factors(two, n.z, two);
    let t36 = n.z.times(two.times(two));
    let t37 = n.x.times(n.z.times(t36));
    let t38 = n.y.times(n.z.times(t36));
    let t39 = t26.negated().plus(n.y.times(t38));
    S::law_plus_associates(t25.negated(), n.x.times(t37), t39);
    lemma_swap_terms(n.x.times(t37), t26.negated(), n.y.times(t38));
    let t40 = n.x.times(t37).plus(n.y.times(t38));
    let t41 = t25.negated().plus(t26.negated().plus(t40));
    S::law_plus_associates(S::one_value(), t33.negated(), t41);
    lemma_swap_terms(t33.negated(), t25.negated(), t26.negated().plus(t40));
    lemma_swap_terms(t33.negated(), t26.negated(), t40);
    S::law_minus(t9, t3.times(t10));
    lemma_negated_times(two, n.y);
    S::law_times_commutes(two, n.y);
    lemma_negated_times(n.y.times(two), n.z);
    S::law_times_associates(n.y, two, n.z);
    S::law_times_commutes(two, n.z);
    let t42 = n.y.times(n.z.times(two));
    lemma_distributes_right(S::one_value(), t25.negated(), t42.negated());
    lemma_times_negated(S::one_value(), t42);
    lemma_one_times(t42);
    lemma_negated_times(t25, t42.negated());
    lemma_times_negated(t25, t42);
    lemma_negated_twice(t25.times(t42));
    S::law_times_associates(n.x, n.x.times(two), t42);
    S::law_times_associates(n.x, two, t42);
    lemma_swap_factors(two, n.y, n.z.times(two));
    lemma_swap_factors(two, n.z, two);
    lemma_negated_times(n.x.times(two), n.z);
    S::law_times_associates(n.x, two, n.z);
    S::law_times_commutes(two, n.z);
    let t43 = n.x.times(n.z.times(two));
    lemma_negated_times(t31, t43.negated());
    lemma_times_negated(t31, t43);
    lemma_negated_twice(t31.times(t43));
    S::law_times_associates(n.x, n.y.times(two), t43);
    S::law_times_associates(n.y, two, t43);
    lemma_swap_factors(two, n.x, n.z.times(two));
    lemma_swap_factors(two, n.z, two);
    lemma_swap_factors(n.y, n.x, t36);
    let t44 = n.x.times(n.y.times(t36));
    S::law_plus_associates(t42.negated(), n.x.times(t44), n.x.times(t44).negated());
    S::law_plus_negated(n.x.times(t44));
    S::law_plus_zero(t42.negated());
    S::law_minus(t8.times(S::one_value()), t6);
    lemma_negated_times(t42, S::one_value());
    S::law_times_one(t42);
    lemma_negated_zero::<S>();
    S::law_plus_zero(t42.negated());
    lemma_negated_times(t42, t42.negated());
    lemma_times_negated(t42, t42);
    lemma_negated_twice(t42.times(t42));
    S::law_times_associates(n.y, n.z.times(two), t42);
    S::law_times_associates(n.z, two, t42);
    lemma_swap_factors(two, n.y, n.z.times(two));
    lemma_swap_factors(two, n.z, two);
    lemma_swap_factors(n.z, n.y, t36);
    let t45 = t26.negated().plus(t33.negated().plus(t40));
    S::law_plus_associates(S::one_value(), t25.negated().plus(t45), n.y.times(t38).negated());
    S::law_plus_associates(t25.negated(), t45, n.y.times(t38).negated());
    S::law_plus_associates(t26.negated(), t33.negated().plus(t40), n.y.times(t38).negated());
    S::law_plus_associates(t33.negated(), t40, n.y.times(t38).negated());
    S::law_plus_associates(n.x.times(t37), n.y.times(t38), n.y.times(t38).negated());
    S::law_plus_negated(n.y.times(t38));
    S::law_plus_zero(n.x.times(t37));
    S::law_minus(t13, t14);
    let t46 = S::one_value().plus(t25.negated());
    lemma_times_zero(t46);
    lemma_times_zero(t31.negated());
    lemma_negated_zero::<S>();
    lemma_zero_plus(S::zero_value());
    S::law_minus(t15, t16);
    lemma_times_zero(t42.negated());
    lemma_zero_times(t34);
    lemma_negated_zero::<S>();
    lemma_zero_plus(S::zero_value());
    lemma_zero_times(S::zero_value());
    let t47 = t33.negated().plus(n.x.times(t37));
    let t48 = t25.negated().plus(t26.negated().plus(t47));
    S::law_plus_zero(S::one_value().plus(t48));
    S::law_minus(t3.times(t8), t18);
    lemma_negated_times(t31, t42.negated());
    lemma_times_negated(t31, t42);
    lemma_negated_twice(t31.times(t42));
    S::law_times_associates(n.x, n.y.times(two), t42);
    S::law_times_associates(n.y, two, t42);
    lemma_swap_factors(two, n.y, n.z.times(two));
    lemma_swap_factors(two, n.z, two);
    lemma_distributes_right(S::one_value(), t26.negated(), t43.negated());
    lemma_times_negated(S::one_value(), t43);
    lemma_one_times(t43);
    lemma_negated_times(t26, t43.negated());
    lemma_times_negated(t26, t43);
    lemma_negated_twice(t26.times(t43));
    S::law_times_associates(n.y, n.y.times(two), t43);
    S::law_times_associates(n.y, two, t43);
    lemma_swap_factors(two, n.x, n.z.times(two));
    lemma_swap_factors(two, n.z, two);
    lemma_swap_factors(n.y, n.x, t36);
    lemma_swap_factors(n.y, n.x, n.y.times(t36));
    let t49 = n.y.times(n.y.times(t36));
    lemma_negated_sum(t43.negated(), n.x.times(t49));
    lemma_negated_twice(t43);
    lemma_swap_terms(n.x.times(t49), t43, n.x.times(t49).negated());
    S::law_plus_negated(n.x.times(t49));
    S::law_plus_zero(t43);
    S::law_minus(t19, t6);
    lemma_negated_times(t43, S::one_value());
    S::law_times_one(t43);
    lemma_negated_zero::<S>();
    S::law_plus_zero(t43.negated());
    lemma_times_negated(t43, t43);
    S::law_times_associates(n.x, n.z.times(two), t43);
    S::law_times_associates(n.z, two, t43);
    lemma_swap_factors(two, n.x, n.z.times(two));
    lemma_swap_factors(two, n.z, two);
    lemma_swap_factors(n.z, n.x, t36);
    S::law_plus_associates(S::one_value(), t48, n.x.times(t37).negated());
    S::law_plus_associates(t25.negated(), t26.negated().plus(t47), n.x.times(t37).negated());
    S::law_plus_associates(t26.negated(), t47, n.x.times(t37).negated());
    S::law_plus_associates(t33.negated(), n.x.times(t37), n.x.times(t37).negated());
    S::law_plus_negated(n.x.times(t37));
    S::law_plus_zero(t33.negated());
    S::law_minus(t14, t22);
    lemma_times_zero(t27);
    lemma_negated_zero::<S>();
    lemma_zero_plus(S::zero_value());
    S::law_minus(t23, t16);
    lemma_times_zero(t43.negated());
    lemma_negated_zero::<S>();
    lemma_zero_plus(S::zero_value());
    lemma_zero_times(S::zero_value());
    lemma_negated_zero::<S>();
    let t50 = t26.negated().plus(t33.negated());
    let t51 = S::one_value().plus(t25.negated().plus(t50));
    S::law_plus_zero(t51);
    S::law_minus(t23, t15);
    lemma_negated_zero::<S>();
    lemma_zero_plus(S::zero_value());
    let t52 = S::zero_value().times(t8);
    S::law_minus(t23, t52);
    lemma_zero_times(t42.negated());
    lemma_negated_zero::<S>();
    lemma_zero_plus(S::zero_value());
    lemma_zero_times(S::zero_value());
    S::law_plus_zero(t51);
    let t53 = n.x.times(n.x).plus(n.y.times(n.y));
    let t54 = two.times(t53.plus(n.z.times(n.z)));
    S::law_minus(S::one_value(), t54);
    S::law_plus_associates(n.x.times(n.x), n.y.times(n.y), n.z.times(n.z));
    let t55 = n.y.times(n.y).plus(n.z.times(n.z));
    S::law_distributes(two, n.x.times(n.x), t55);
    lemma_swap_factors(two, n.x, n.x);
    S::law_times_commutes(two, n.x);
    S::law_distributes(two, n.y.times(n.y), n.z.times(n.z));
    lemma_swap_factors(two, n.y, n.y);
    S::law_times_commutes(two, n.y);
    lemma_swap_factors(two, n.z, n.z);
    S::law_times_commutes(two, n.z);
    lemma_negated_sum(t25, t26.plus(t33));
    lemma_negated_sum(t26, t33);
}

/// A reflection turns orientation around: the determinant of Householder's
/// matrix is minus one, for a normal of length one.
pub proof fn lemma_reflection3_determinant<S: Field>(normal: Vector3<S>)
    requires
        normal.dot_product(normal) == S::one_value(),
    ensures
        Reflection3::householder(normal).determinant_value() == S::one_value().negated(),
{
    let one = S::one_value();
    lemma_householder3_determinant(normal);
    S::law_times_one(one.plus(one));
    S::law_minus(one, one.plus(one));
    lemma_negated_sum(one, one);
    S::law_plus_associates(one, one.negated(), one.negated());
    S::law_plus_negated(one);
    lemma_zero_plus(one.negated());
}

} // verus!
