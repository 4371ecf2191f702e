//! Determinants, adjugates, and inverses of matrices over a field.
//!
//! The adjugate of a matrix, multiplied with the matrix on either side, gives
//! the determinant times the identity. From this the inverse by Cramer's rule
//! is an inverse on both sides.

use crate::algebra::{
    lemma_apply2_scaled, lemma_apply3_scaled, lemma_cancel_factor, lemma_cancels_front,
    lemma_distributes_right, lemma_dot3_commutes, lemma_dot3_plus, lemma_minus_self,
    lemma_negated_plus, lemma_negated_sum, lemma_negated_times, lemma_negated_twice,
    lemma_negated_zero, lemma_sum3_plus, lemma_swap_terms, lemma_times2_associates,
    lemma_times2_identity, lemma_times3_associates, lemma_times3_identity, lemma_times_negated,
    lemma_times_zero, lemma_transposed3_times, lemma_zero_plus, lemma_zero_times,
};
use crate::matrix::{Matrix2x2, Matrix3x3};
use crate::scalar::Field;
use crate::vector::{Vector2, Vector3};
use vstd::prelude::*;

verus! {

/// `a * (p - q) = a * p - a * q`.
pub proof fn lemma_times_minus<S: Field>(a: S, p: S, q: S)
    ensures
        a.times(p.minus(q)) == a.times(p).minus(a.times(q)),
{
    S::law_minus(p, q);
    S::law_distributes(a, p, q.negated());
    lemma_times_negated(a, q);
    S::law_minus(a.times(p), a.times(q));
}

/// `a * (b * c) = b * (a * c)`.
pub proof fn lemma_swap_factors<S: Field>(a: S, b: S, c: S)
    ensures
        a.times(b.times(c)) == b.times(a.times(c)),
{
    S::law_times_associates(a, b, c);
    S::law_times_commutes(a, b);
    S::law_times_associates(b, a, c);
}

/// `a * (b * c) = c * (a * b)`.
pub proof fn lemma_rotate_factors<S: Field>(a: S, b: S, c: S)
    ensures
        a.times(b.times(c)) == c.times(a.times(b)),
{
    S::law_times_associates(a, b, c);
    S::law_times_commutes(a.times(b), c);
}

/// `a * (b * c) = c * (b * a)`.
pub proof fn lemma_reverse_factors<S: Field>(a: S, b: S, c: S)
    ensures
        a.times(b.times(c)) == c.times(b.times(a)),
{
    lemma_rotate_factors(a, b, c);
    S::law_times_commutes(a, b);
}

/// `(x + y) + z = (z + x) + y`.
pub proof fn lemma_sum3_rotates<S: Field>(x: S, y: S, z: S)
    ensures
        x.plus(y).plus(z) == z.plus(x).plus(y),
{
    S::law_plus_commutes(x.plus(y), z);
    S::law_plus_associates(z, x, y);
}

/// `(x + y) + z = (x + z) + y`.
pub proof fn lemma_sum3_swaps<S: Field>(x: S, y: S, z: S)
    ensures
        x.plus(y).plus(z) == x.plus(z).plus(y),
{
    S::law_plus_associates(x, y, z);
    S::law_plus_commutes(y, z);
    S::law_plus_associates(x, z, y);
}

/// A sum of three differences is the difference of the two sums.
pub proof fn lemma_sum3_minus<S: Field>(p1: S, p2: S, p3: S, q1: S, q2: S, q3: S)
    ensures
        p1.minus(q1).plus(p2.minus(q2)).plus(p3.minus(q3)) == p1.plus(p2).plus(p3).minus(
            q1.plus(q2).plus(q3),
        ),
{
    S::law_minus(p1, q1);
    S::law_minus(p2, q2);
    S::law_minus(p3, q3);
    lemma_sum3_plus(p1, p2, p3, q1.negated(), q2.negated(), q3.negated());
    lemma_negated_sum(q1, q2);
    lemma_negated_sum(q1.plus(q2), q3);
    S::law_minus(p1.plus(p2).plus(p3), q1.plus(q2).plus(q3));
}

/// The triple product of three vectors: the first dotted with the cross
/// product of the other two.
pub open spec fn triple_product<S: Field>(a: Vector3<S>, b: Vector3<S>, c: Vector3<S>) -> S {
    a.dot_product(b.cross_product(c))
}

/// A dot product of a cross product, written as a difference of two sums of
/// three products.
proof fn lemma_triple_expands<S: Field>(a: Vector3<S>, b: Vector3<S>, c: Vector3<S>)
    ensures
        triple_product(a, b, c) == a.x.times(b.y.times(c.z)).plus(a.y.times(b.z.times(c.x))).plus(
            a.z.times(b.x.times(c.y)),
        ).minus(
            a.x.times(b.z.times(c.y)).plus(a.y.times(b.x.times(c.z))).plus(
                a.z.times(b.y.times(c.x)),
            ),
        ),
{
    lemma_times_minus(a.x, b.y.times(c.z), b.z.times(c.y));
    lemma_times_minus(a.y, b.z.times(c.x), b.x.times(c.z));
    lemma_times_minus(a.z, b.x.times(c.y), b.y.times(c.x));
    lemma_sum3_minus(
        a.x.times(b.y.times(c.z)),
        a.y.times(b.z.times(c.x)),
        a.z.times(b.x.times(c.y)),
        a.x.times(b.z.times(c.y)),
        a.y.times(b.x.times(c.z)),
        a.z.times(b.y.times(c.x)),
    );
}

/// A triple product with the first vector repeated in second or in third
/// place is zero.
pub proof fn lemma_triple_repeats<S: Field>(a: Vector3<S>, b: Vector3<S>)
    ensures
        triple_product(a, a, b) == S::zero_value(),
        triple_product(b, a, b) == S::zero_value(),
{
    lemma_triple_expands(a, a, b);
    let p1 = a.x.times(a.y.times(b.z));
    let p2 = a.y.times(a.z.times(b.x));
    let p3 = a.z.times(a.x.times(b.y));
    lemma_swap_factors(a.y, a.x, b.z);
    lemma_swap_factors(a.z, a.y, b.x);
    lemma_swap_factors(a.x, a.z, b.y);
    lemma_sum3_rotates(p1, p2, p3);
    lemma_minus_self(p1.plus(p2).plus(p3));

    lemma_triple_expands(b, a, b);
    let q1 = b.x.times(a.y.times(b.z));
    let q2 = b.y.times(a.z.times(b.x));
    let q3 = b.z.times(a.x.times(b.y));
    lemma_reverse_factors(b.x, a.y, b.z);
    lemma_reverse_factors(b.y, a.z, b.x);
    lemma_reverse_factors(b.z, a.x, b.y);
    lemma_sum3_rotates(q2, q3, q1);
    lemma_minus_self(q1.plus(q2).plus(q3));
}

/// The triple product does not change when its three vectors rotate.
pub proof fn lemma_triple_cycles<S: Field>(a: Vector3<S>, b: Vector3<S>, c: Vector3<S>)
    ensures
        triple_product(a, b, c) == triple_product(b, c, a),
        triple_product(a, b, c) == triple_product(c, a, b),
{
    lemma_triple_expands(a, b, c);
    lemma_triple_expands(b, c, a);
    lemma_triple_expands(c, a, b);
    let p1 = a.x.times(b.y.times(c.z));
    let p2 = a.y.times(b.z.times(c.x));
    let p3 = a.z.times(b.x.times(c.y));
    let q1 = a.x.times(b.z.times(c.y));
    let q2 = a.y.times(b.x.times(c.z));
    let q3 = a.z.times(b.y.times(c.x));
    // b, c, a
    lemma_rotate_factors(b.x, c.y, a.z);
    lemma_rotate_factors(b.y, c.z, a.x);
    lemma_rotate_factors(b.z, c.x, a.y);
    lemma_rotate_factors(b.x, c.z, a.y);
    lemma_rotate_factors(b.y, c.x, a.z);
    lemma_rotate_factors(b.z, c.y, a.x);
    lemma_sum3_rotates(p1, p2, p3);
    lemma_sum3_rotates(q2, q3, q1);
    // c, a, b
    lemma_rotate_factors(a.y, b.z, c.x);
    lemma_rotate_factors(a.z, b.x, c.y);
    lemma_rotate_factors(a.x, b.y, c.z);
    lemma_rotate_factors(a.z, b.y, c.x);
    lemma_rotate_factors(a.x, b.z, c.y);
    lemma_rotate_factors(a.y, b.x, c.z);
    lemma_sum3_rotates(p2, p3, p1);
    lemma_sum3_rotates(q1, q2, q3);
}

/// The determinant of the transpose is the determinant.
pub proof fn lemma_determinant3_transposes<S: Field>(m: Matrix3x3<S>)
    ensures
        m.transposed().determinant_value() == m.determinant_value(),
{
    lemma_triple_expands(m.row0(), m.row1(), m.row2());
    lemma_triple_expands(m.col0(), m.col1(), m.col2());
    let p1 = m.c0r0.times(m.c1r1.times(m.c2r2));
    let p2 = m.c1r0.times(m.c2r1.times(m.c0r2));
    let p3 = m.c2r0.times(m.c0r1.times(m.c1r2));
    // the columns' products, brought into the form of the rows'
    lemma_rotate_factors(m.c0r1, m.c1r2, m.c2r0);
    lemma_swap_factors(m.c0r2, m.c1r0, m.c2r1);
    S::law_times_commutes(m.c0r2, m.c2r1);
    S::law_times_commutes(m.c1r2, m.c2r1);
    lemma_swap_factors(m.c0r1, m.c1r0, m.c2r2);
    lemma_reverse_factors(m.c0r2, m.c1r1, m.c2r0);
    lemma_sum3_swaps(p1, p2, p3);
}

/// The adjugate of the transpose is the transpose of the adjugate.
pub proof fn lemma_adjugate3_transposes<S: Field>(m: Matrix3x3<S>)
    ensures
        m.transposed().adjugate() == m.adjugate().transposed(),
{
    S::law_times_commutes(m.c2r1, m.c1r2);
    S::law_times_commutes(m.c2r2, m.c1r0);
    S::law_times_commutes(m.c2r0, m.c1r1);
    S::law_times_commutes(m.c0r1, m.c2r2);
    S::law_times_commutes(m.c2r0, m.c0r2);
    S::law_times_commutes(m.c0r0, m.c2r1);
    S::law_times_commutes(m.c1r1, m.c0r2);
    S::law_times_commutes(m.c0r0, m.c1r2);
    S::law_times_commutes(m.c1r0, m.c0r1);
}

/// A matrix times its adjugate is the determinant times the identity.
pub proof fn lemma_times3_adjugate<S: Field>(m: Matrix3x3<S>)
    ensures
        m.times(m.adjugate()) == Matrix3x3::scalar_value(m.determinant_value()),
{
    let (r0, r1, r2) = (m.row0(), m.row1(), m.row2());
    lemma_triple_repeats(r1, r2);
    lemma_triple_repeats(r2, r0);
    lemma_triple_repeats(r0, r1);
    lemma_triple_cycles(r0, r1, r2);
}

/// The adjugate times its matrix is the determinant times the identity.
pub proof fn lemma_adjugate3_times<S: Field>(m: Matrix3x3<S>)
    ensures
        m.adjugate().times(m) == Matrix3x3::scalar_value(m.determinant_value()),
{
    let t = m.transposed();
    lemma_times3_adjugate(t);
    lemma_transposed3_times(t, t.adjugate());
    lemma_adjugate3_transposes(m);
    lemma_determinant3_transposes(m);
}

/// The inverse by Cramer's rule is an inverse on both sides.
pub proof fn lemma_inverse3_is_inverse<S: Field>(m: Matrix3x3<S>)
    requires
        !m.determinant_value().vanishes(),
    ensures
        m.inverse_value() is Some,
        m.inverse_value().unwrap().times(m) == Matrix3x3::<S>::identity_value(),
        m.times(m.inverse_value().unwrap()) == Matrix3x3::<S>::identity_value(),
{
    let d = m.determinant_value();
    let k = S::one_value().over(d);
    let a = m.adjugate();
    S::law_over(S::one_value(), d);
    S::law_times_commutes(d, k);
    lemma_times_zero(k);
    // m (k a) = k (m a)
    lemma_times3_adjugate(m);
    lemma_apply3_scaled_by(m, a.col0(), k);
    lemma_apply3_scaled_by(m, a.col1(), k);
    lemma_apply3_scaled_by(m, a.col2(), k);
    // (k a) m = k (a m)
    lemma_adjugate3_times(m);
    lemma_dot3_scaled_by(a.row0(), m.col0(), k);
    lemma_dot3_scaled_by(a.row0(), m.col1(), k);
    lemma_dot3_scaled_by(a.row0(), m.col2(), k);
    lemma_dot3_scaled_by(a.row1(), m.col0(), k);
    lemma_dot3_scaled_by(a.row1(), m.col1(), k);
    lemma_dot3_scaled_by(a.row1(), m.col2(), k);
    lemma_dot3_scaled_by(a.row2(), m.col0(), k);
    lemma_dot3_scaled_by(a.row2(), m.col1(), k);
    lemma_dot3_scaled_by(a.row2(), m.col2(), k);
}

/// A matrix commutes with scaling on the left.
pub proof fn lemma_apply3_scaled_by<S: Field>(m: Matrix3x3<S>, v: Vector3<S>, k: S)
    ensures
        m.apply(v.scaled_by(k)) == m.apply(v).scaled_by(k),
{
    S::law_times_commutes(k, v.x);
    S::law_times_commutes(k, v.y);
    S::law_times_commutes(k, v.z);
    lemma_apply3_scaled(m, v, k);
    let w = m.apply(v);
    S::law_times_commutes(k, w.x);
    S::law_times_commutes(k, w.y);
    S::law_times_commutes(k, w.z);
}

/// A factor on the first argument of a dot product can be taken out.
pub proof fn lemma_dot3_scaled_by<S: Field>(u: Vector3<S>, v: Vector3<S>, k: S)
    ensures
        u.scaled_by(k).dot_product(v) == k.times(u.dot_product(v)),
{
    S::law_times_associates(k, u.x, v.x);
    S::law_times_associates(k, u.y, v.y);
    S::law_times_associates(k, u.z, v.z);
    S::law_distributes(k, u.x.times(v.x), u.y.times(v.y));
    S::law_distributes(k, u.x.times(v.x).plus(u.y.times(v.y)), u.z.times(v.z));
}

/// A matrix of two dimensions times its adjugate, on either side, is the
/// determinant times the identity.
pub proof fn lemma_times2_adjugate<S: Field>(m: Matrix2x2<S>)
    ensures
        m.times(m.adjugate()) == Matrix2x2::scalar_value(m.determinant_value()),
        m.adjugate().times(m) == Matrix2x2::scalar_value(m.determinant_value()),
{
    let (a, b, c, d) = (m.c0r0, m.c0r1, m.c1r0, m.c1r1);
    S::law_minus(a.times(d), c.times(b));
    // m adj
    lemma_times_negated(c, b);
    lemma_times_negated(d, b);
    S::law_times_commutes(b, d);
    S::law_plus_negated(b.times(d));
    lemma_times_negated(a, c);
    S::law_times_commutes(a, c);
    lemma_negated_plus(c.times(a));
    lemma_times_negated(b, c);
    S::law_times_commutes(b, c);
    S::law_times_commutes(d, a);
    S::law_plus_commutes(c.times(b).negated(), a.times(d));
    // adj m
    lemma_negated_times(c, b);
    S::law_times_commutes(d, a);
    lemma_negated_times(b, a);
    S::law_times_commutes(a, b);
    lemma_negated_plus(a.times(b));
    S::law_times_commutes(d, c);
    lemma_negated_times(c, d);
    S::law_plus_negated(c.times(d));
    lemma_negated_times(b, c);
}

/// The inverse by Cramer's rule of a matrix of two dimensions is an inverse
/// on both sides.
pub proof fn lemma_inverse2_is_inverse<S: Field>(m: Matrix2x2<S>)
    requires
        !m.determinant_value().vanishes(),
    ensures
        m.inverse_value() is Some,
        m.inverse_value().unwrap().times(m) == Matrix2x2::<S>::identity_value(),
        m.times(m.inverse_value().unwrap()) == Matrix2x2::<S>::identity_value(),
{
    let d = m.determinant_value();
    let k = S::one_value().over(d);
    let a = m.adjugate();
    S::law_over(S::one_value(), d);
    S::law_times_commutes(d, k);
    lemma_times_zero(k);
    lemma_times2_adjugate(m);
    // m (k a): each entry is a row of m dotted with k times a column of a
    lemma_factor_in_dot2(m.c0r0, m.c1r0, a.c0r0, a.c0r1, k);
    lemma_factor_in_dot2(m.c0r1, m.c1r1, a.c0r0, a.c0r1, k);
    lemma_factor_in_dot2(m.c0r0, m.c1r0, a.c1r0, a.c1r1, k);
    lemma_factor_in_dot2(m.c0r1, m.c1r1, a.c1r0, a.c1r1, k);
    // (k a) m: each entry is k times a row of a dotted with a column of m
    lemma_factor_out_dot2(a.c0r0, a.c1r0, m.c0r0, m.c0r1, k);
    lemma_factor_out_dot2(a.c0r1, a.c1r1, m.c0r0, m.c0r1, k);
    lemma_factor_out_dot2(a.c0r0, a.c1r0, m.c1r0, m.c1r1, k);
    lemma_factor_out_dot2(a.c0r1, a.c1r1, m.c1r0, m.c1r1, k);
}

/// `x (k u) + y (k v) = k (x u + y v)`.
proof fn lemma_factor_in_dot2<S: Field>(x: S, y: S, u: S, v: S, k: S)
    ensures
        x.times(k.times(u)).plus(y.times(k.times(v))) == k.times(x.times(u).plus(y.times(v))),
{
    lemma_swap_factors(x, k, u);
    lemma_swap_factors(y, k, v);
    S::law_distributes(k, x.times(u), y.times(v));
}

/// `(k x) u + (k y) v = k (x u + y v)`.
proof fn lemma_factor_out_dot2<S: Field>(x: S, y: S, u: S, v: S, k: S)
    ensures
        k.times(x).times(u).plus(k.times(y).times(v)) == k.times(x.times(u).plus(y.times(v))),
{
    S::law_times_associates(k, x, u);
    S::law_times_associates(k, y, v);
    S::law_distributes(k, x.times(u), y.times(v));
}

/// Lagrange's identity: the squared length of a cross product is the
/// product of the squared lengths less the square of the dot product.
pub proof fn lemma_lagrange3<S: Field>(a: Vector3<S>, b: Vector3<S>)
    ensures
        a.cross_product(b).dot_product(a.cross_product(b)) == a.dot_product(a).times(
            b.dot_product(b),
        ).minus(a.dot_product(b).times(a.dot_product(b))),
{
    S::law_minus(a.y.times(b.z), a.z.times(b.y));
    let t0 = a.y.times(b.z).plus(a.z.times(b.y).negated());
    lemma_distributes_right(a.y.times(b.z), a.z.times(b.y).negated(), t0);
    S::law_distributes(a.y.times(b.z), a.y.times(b.z), a.z.times(b.y).negated());
    S::law_times_associates(a.y, b.z, a.y.times(b.z));
    lemma_swap_factors(b.z, a.y, b.z);
    lemma_times_negated(a.y.times(b.z), a.z.times(b.y));
    S::law_times_associates(a.y, b.z, a.z.times(b.y));
    lemma_swap_factors(b.z, a.z, b.y);
    S::law_times_commutes(b.z, b.y);
    S::law_distributes(a.z.times(b.y).negated(), a.y.times(b.z), a.z.times(b.y).negated());
    lemma_negated_times(a.z.times(b.y), a.y.times(b.z));
    S::law_times_associates(a.z, b.y, a.y.times(b.z));
    lemma_swap_factors(b.y, a.y, b.z);
    lemma_swap_factors(a.z, a.y, b.y.times(b.z));
    lemma_negated_times(a.z.times(b.y), a.z.times(b.y).negated());
    lemma_times_negated(a.z.times(b.y), a.z.times(b.y));
    let t1 = a.z.times(b.y).times(a.z.times(b.y));
    lemma_negated_twice(t1);
    S::law_times_associates(a.z, b.y, a.z.times(b.y));
    lemma_swap_factors(b.y, a.z, b.y);
    let t2 = a.y.times(b.z.times(b.z));
    let t3 = a.z.times(b.y.times(b.z));
    let t4 = a.z.times(b.y.times(b.y));
    let t5 = a.y.times(t3).negated().plus(a.z.times(t4));
    S::law_plus_associates(a.y.times(t2), a.y.times(t3).negated(), t5);
    S::law_minus(a.z.times(b.x), a.x.times(b.z));
    S::law_plus_commutes(a.z.times(b.x), a.x.times(b.z).negated());
    let t6 = a.x.times(b.z).negated().plus(a.z.times(b.x));
    lemma_distributes_right(a.x.times(b.z).negated(), a.z.times(b.x), t6);
    S::law_distributes(a.x.times(b.z).negated(), a.x.times(b.z).negated(), a.z.times(b.x));
    lemma_negated_times(a.x.times(b.z), a.x.times(b.z).negated());
    lemma_times_negated(a.x.times(b.z), a.x.times(b.z));
    let t7 = a.x.times(b.z).times(a.x.times(b.z));
    lemma_negated_twice(t7);
    S::law_times_associates(a.x, b.z, a.x.times(b.z));
    lemma_swap_factors(b.z, a.x, b.z);
    lemma_negated_times(a.x.times(b.z), a.z.times(b.x));
    S::law_times_associates(a.x, b.z, a.z.times(b.x));
    lemma_swap_factors(b.z, a.z, b.x);
    S::law_times_commutes(b.z, b.x);
    S::law_distributes(a.z.times(b.x), a.x.times(b.z).negated(), a.z.times(b.x));
    lemma_times_negated(a.z.times(b.x), a.x.times(b.z));
    S::law_times_associates(a.z, b.x, a.x.times(b.z));
    lemma_swap_factors(b.x, a.x, b.z);
    lemma_swap_factors(a.z, a.x, b.x.times(b.z));
    S::law_times_associates(a.z, b.x, a.z.times(b.x));
    lemma_swap_factors(b.x, a.z, b.x);
    let t8 = a.x.times(b.z.times(b.z));
    let t9 = a.z.times(b.x.times(b.z));
    let t10 = a.z.times(b.x.times(b.x));
    let t11 = a.x.times(t9).negated().plus(a.z.times(t10));
    S::law_plus_associates(a.x.times(t8), a.x.times(t9).negated(), t11);
    let t12 = a.y.times(t3).negated().plus(t5);
    let t13 = a.x.times(t9).negated().plus(t11);
    S::law_plus_associates(a.y.times(t2), t12, a.x.times(t8).plus(t13));
    S::law_plus_associates(a.y.times(t3).negated(), t5, a.x.times(t8).plus(t13));
    S::law_plus_associates(a.y.times(t3).negated(), a.z.times(t4), a.x.times(t8).plus(t13));
    lemma_swap_terms(a.z.times(t4), a.x.times(t8), t13);
    lemma_swap_terms(a.z.times(t4), a.x.times(t9).negated(), t11);
    lemma_swap_terms(a.z.times(t4), a.x.times(t9).negated(), a.z.times(t10));
    S::law_plus_commutes(a.z.times(t4), a.z.times(t10));
    let t14 = a.z.times(t10).plus(a.z.times(t4));
    let t15 = a.x.times(t9).negated().plus(t14);
    let t16 = a.x.times(t9).negated().plus(t15);
    lemma_swap_terms(a.y.times(t3).negated(), a.x.times(t8), t16);
    lemma_swap_terms(a.y.times(t3).negated(), a.x.times(t9).negated(), t15);
    lemma_swap_terms(a.y.times(t3).negated(), a.x.times(t9).negated(), t14);
    let t17 = a.y.times(t3).negated().plus(t14);
    let t18 = a.x.times(t9).negated().plus(t17);
    let t19 = a.x.times(t9).negated().plus(t18);
    lemma_swap_terms(a.y.times(t3).negated(), a.x.times(t8), t19);
    lemma_swap_terms(a.y.times(t3).negated(), a.x.times(t9).negated(), t18);
    lemma_swap_terms(a.y.times(t3).negated(), a.x.times(t9).negated(), t17);
    let t20 = a.y.times(t3).negated().plus(t17);
    let t21 = a.x.times(t9).negated().plus(t20);
    let t22 = a.x.times(t9).negated().plus(t21);
    lemma_swap_terms(a.y.times(t2), a.x.times(t8), t22);
    lemma_swap_terms(a.y.times(t2), a.x.times(t9).negated(), t21);
    lemma_swap_terms(a.y.times(t2), a.x.times(t9).negated(), t20);
    S::law_minus(a.x.times(b.y), a.y.times(b.x));
    let t23 = a.x.times(b.y).plus(a.y.times(b.x).negated());
    lemma_distributes_right(a.x.times(b.y), a.y.times(b.x).negated(), t23);
    S::law_distributes(a.x.times(b.y), a.x.times(b.y), a.y.times(b.x).negated());
    S::law_times_associates(a.x, b.y, a.x.times(b.y));
    lemma_swap_factors(b.y, a.x, b.y);
    lemma_times_negated(a.x.times(b.y), a.y.times(b.x));
    S::law_times_associates(a.x, b.y, a.y.times(b.x));
    lemma_swap_factors(b.y, a.y, b.x);
    S::law_times_commutes(b.y, b.x);
    S::law_distributes(a.y.times(b.x).negated(), a.x.times(b.y), a.y.times(b.x).negated());
    lemma_negated_times(a.y.times(b.x), a.x.times(b.y));
    S::law_times_associates(a.y, b.x, a.x.times(b.y));
    lemma_swap_factors(b.x, a.x, b.y);
    lemma_swap_factors(a.y, a.x, b.x.times(b.y));
    lemma_negated_times(a.y.times(b.x), a.y.times(b.x).negated());
    lemma_times_negated(a.y.times(b.x), a.y.times(b.x));
    let t24 = a.y.times(b.x).times(a.y.times(b.x));
    lemma_negated_twice(t24);
    S::law_times_associates(a.y, b.x, a.y.times(b.x));
    lemma_swap_factors(b.x, a.y, b.x);
    let t25 = a.x.times(b.y.times(b.y));
    let t26 = a.y.times(b.x.times(b.y));
    let t27 = a.y.times(b.x.times(b.x));
    let t28 = a.x.times(t26).negated().plus(a.y.times(t27));
    S::law_plus_associates(a.x.times(t25), a.x.times(t26).negated(), t28);
    let t29 = a.x.times(t9).negated().plus(a.y.times(t2).plus(t20));
    let t30 = a.x.times(t9).negated().plus(t29);
    let t31 = a.x.times(t26).negated().plus(t28);
    S::law_plus_associates(a.x.times(t8), t30, a.x.times(t25).plus(t31));
    S::law_plus_associates(a.x.times(t9).negated(), t29, a.x.times(t25).plus(t31));
    S::law_plus_associates(
        a.x.times(t9).negated(),
        a.y.times(t2).plus(t20),
        a.x.times(t25).plus(t31),
    );
    S::law_plus_associates(a.y.times(t2), t20, a.x.times(t25).plus(t31));
    S::law_plus_associates(a.y.times(t3).negated(), t17, a.x.times(t25).plus(t31));
    S::law_plus_associates(a.y.times(t3).negated(), t14, a.x.times(t25).plus(t31));
    S::law_plus_associates(a.z.times(t10), a.z.times(t4), a.x.times(t25).plus(t31));
    lemma_swap_terms(a.z.times(t4), a.x.times(t25), t31);
    lemma_swap_terms(a.z.times(t4), a.x.times(t26).negated(), t28);
    lemma_swap_terms(a.z.times(t4), a.x.times(t26).negated(), a.y.times(t27));
    S::law_plus_commutes(a.z.times(t4), a.y.times(t27));
    let t32 = a.y.times(t27).plus(a.z.times(t4));
    let t33 = a.x.times(t26).negated().plus(t32);
    let t34 = a.x.times(t26).negated().plus(t33);
    lemma_swap_terms(a.z.times(t10), a.x.times(t25), t34);
    lemma_swap_terms(a.z.times(t10), a.x.times(t26).negated(), t33);
    lemma_swap_terms(a.z.times(t10), a.x.times(t26).negated(), t32);
    lemma_swap_terms(a.z.times(t10), a.y.times(t27), a.z.times(t4));
    let t35 = a.x.times(t26).negated().plus(a.y.times(t27).plus(t14));
    let t36 = a.x.times(t26).negated().plus(t35);
    lemma_swap_terms(a.y.times(t3).negated(), a.x.times(t25), t36);
    lemma_swap_terms(a.y.times(t3).negated(), a.x.times(t26).negated(), t35);
    lemma_swap_terms(
        a.y.times(t3).negated(),
        a.x.times(t26).negated(),
        a.y.times(t27).plus(t14),
    );
    lemma_swap_terms(a.y.times(t3).negated(), a.y.times(t27), t14);
    let t37 = a.x.times(t26).negated().plus(a.y.times(t27).plus(t17));
    let t38 = a.x.times(t26).negated().plus(t37);
    lemma_swap_terms(a.y.times(t3).negated(), a.x.times(t25), t38);
    lemma_swap_terms(a.y.times(t3).negated(), a.x.times(t26).negated(), t37);
    lemma_swap_terms(
        a.y.times(t3).negated(),
        a.x.times(t26).negated(),
        a.y.times(t27).plus(t17),
    );
    lemma_swap_terms(a.y.times(t3).negated(), a.y.times(t27), t17);
    let t39 = a.x.times(t26).negated().plus(a.y.times(t27).plus(t20));
    let t40 = a.x.times(t26).negated().plus(t39);
    lemma_swap_terms(a.y.times(t2), a.x.times(t25), t40);
    lemma_swap_terms(a.y.times(t2), a.x.times(t26).negated(), t39);
    lemma_swap_terms(a.y.times(t2), a.x.times(t26).negated(), a.y.times(t27).plus(t20));
    lemma_swap_terms(a.y.times(t2), a.y.times(t27), t20);
    let t41 = a.y.times(t27).plus(a.y.times(t2).plus(t20));
    let t42 = a.x.times(t26).negated().plus(t41);
    let t43 = a.x.times(t26).negated().plus(t42);
    lemma_swap_terms(a.x.times(t9).negated(), a.x.times(t25), t43);
    lemma_swap_terms(a.x.times(t9).negated(), a.x.times(t26).negated(), t42);
    lemma_swap_terms(a.x.times(t9).negated(), a.x.times(t26).negated(), t41);
    let t44 = a.x.times(t9).negated().plus(t41);
    let t45 = a.x.times(t26).negated().plus(t44);
    let t46 = a.x.times(t26).negated().plus(t45);
    lemma_swap_terms(a.x.times(t9).negated(), a.x.times(t25), t46);
    lemma_swap_terms(a.x.times(t9).negated(), a.x.times(t26).negated(), t45);
    lemma_swap_terms(a.x.times(t9).negated(), a.x.times(t26).negated(), t44);
    let t47 = a.x.times(t9).negated().plus(t44);
    let t48 = a.x.times(t26).negated().plus(t47);
    let t49 = a.x.times(t26).negated().plus(t48);
    lemma_swap_terms(a.x.times(t8), a.x.times(t25), t49);
    let t50 = a.x.times(a.x).plus(a.y.times(a.y));
    let t51 = b.x.times(b.x).plus(b.y.times(b.y));
    let t52 = t50.plus(a.z.times(a.z)).times(t51.plus(b.z.times(b.z)));
    let t53 = a.x.times(b.x).plus(a.y.times(b.y));
    let t54 = t53.plus(a.z.times(b.z)).times(t53.plus(a.z.times(b.z)));
    S::law_minus(t52, t54);
    S::law_plus_associates(a.x.times(a.x), a.y.times(a.y), a.z.times(a.z));
    S::law_plus_associates(b.x.times(b.x), b.y.times(b.y), b.z.times(b.z));
    let t55 = a.y.times(a.y).plus(a.z.times(a.z));
    let t56 = b.y.times(b.y).plus(b.z.times(b.z));
    lemma_distributes_right(a.x.times(a.x), t55, b.x.times(b.x).plus(t56));
    S::law_distributes(a.x.times(a.x), b.x.times(b.x), t56);
    S::law_times_associates(a.x, a.x, b.x.times(b.x));
    S::law_distributes(a.x.times(a.x), b.y.times(b.y), b.z.times(b.z));
    S::law_times_associates(a.x, a.x, b.y.times(b.y));
    S::law_times_associates(a.x, a.x, b.z.times(b.z));
    lemma_distributes_right(a.y.times(a.y), a.z.times(a.z), b.x.times(b.x).plus(t56));
    S::law_distributes(a.y.times(a.y), b.x.times(b.x), t56);
    S::law_times_associates(a.y, a.y, b.x.times(b.x));
    S::law_distributes(a.y.times(a.y), b.y.times(b.y), b.z.times(b.z));
    S::law_times_associates(a.y, a.y, b.y.times(b.y));
    S::law_times_associates(a.y, a.y, b.z.times(b.z));
    S::law_distributes(a.z.times(a.z), b.x.times(b.x), t56);
    S::law_times_associates(a.z, a.z, b.x.times(b.x));
    S::law_distributes(a.z.times(a.z), b.y.times(b.y), b.z.times(b.z));
    S::law_times_associates(a.z, a.z, b.y.times(b.y));
    S::law_times_associates(a.z, a.z, b.z.times(b.z));
    let t57 = a.y.times(b.y.times(b.y));
    let t58 = a.y.times(t57).plus(a.y.times(t2));
    let t59 = a.z.times(b.z.times(b.z));
    let t60 = a.z.times(t4).plus(a.z.times(t59));
    S::law_plus_associates(a.y.times(t27), t58, a.z.times(t10).plus(t60));
    S::law_plus_associates(a.y.times(t57), a.y.times(t2), a.z.times(t10).plus(t60));
    let t61 = a.x.times(b.x.times(b.x));
    let t62 = a.x.times(t25).plus(a.x.times(t8));
    let t63 = a.y.times(t2).plus(a.z.times(t10).plus(t60));
    let t64 = a.y.times(t27).plus(a.y.times(t57).plus(t63));
    S::law_plus_associates(a.x.times(t61), t62, t64);
    S::law_plus_associates(a.x.times(t25), a.x.times(t8), t64);
    S::law_plus_associates(a.x.times(b.x), a.y.times(b.y), a.z.times(b.z));
    let t65 = a.y.times(b.y).plus(a.z.times(b.z));
    lemma_distributes_right(a.x.times(b.x), t65, a.x.times(b.x).plus(t65));
    S::law_distributes(a.x.times(b.x), a.x.times(b.x), t65);
    S::law_times_associates(a.x, b.x, a.x.times(b.x));
    lemma_swap_factors(b.x, a.x, b.x);
    S::law_distributes(a.x.times(b.x), a.y.times(b.y), a.z.times(b.z));
    S::law_times_associates(a.x, b.x, a.y.times(b.y));
    lemma_swap_factors(b.x, a.y, b.y);
    S::law_times_associates(a.x, b.x, a.z.times(b.z));
    lemma_swap_factors(b.x, a.z, b.z);
    lemma_distributes_right(a.y.times(b.y), a.z.times(b.z), a.x.times(b.x).plus(t65));
    S::law_distributes(a.y.times(b.y), a.x.times(b.x), t65);
    S::law_times_associates(a.y, b.y, a.x.times(b.x));
    lemma_swap_factors(b.y, a.x, b.x);
    S::law_times_commutes(b.y, b.x);
    lemma_swap_factors(a.y, a.x, b.x.times(b.y));
    S::law_distributes(a.y.times(b.y), a.y.times(b.y), a.z.times(b.z));
    S::law_times_associates(a.y, b.y, a.y.times(b.y));
    lemma_swap_factors(b.y, a.y, b.y);
    S::law_times_associates(a.y, b.y, a.z.times(b.z));
    lemma_swap_factors(b.y, a.z, b.z);
    S::law_distributes(a.z.times(b.z), a.x.times(b.x), t65);
    S::law_times_associates(a.z, b.z, a.x.times(b.x));
    lemma_swap_factors(b.z, a.x, b.x);
    S::law_times_commutes(b.z, b.x);
    lemma_swap_factors(a.z, a.x, b.x.times(b.z));
    S::law_distributes(a.z.times(b.z), a.y.times(b.y), a.z.times(b.z));
    S::law_times_associates(a.z, b.z, a.y.times(b.y));
    lemma_swap_factors(b.z, a.y, b.y);
    S::law_times_commutes(b.z, b.y);
    lemma_swap_factors(a.z, a.y, b.y.times(b.z));
    S::law_times_associates(a.z, b.z, a.z.times(b.z));
    lemma_swap_factors(b.z, a.z, b.z);
    let t66 = a.y.times(t57).plus(a.y.times(t3));
    let t67 = a.y.times(t3).plus(a.z.times(t59));
    S::law_plus_associates(a.x.times(t26), t66, a.x.times(t9).plus(t67));
    S::law_plus_associates(a.y.times(t57), a.y.times(t3), a.x.times(t9).plus(t67));
    lemma_swap_terms(a.y.times(t3), a.x.times(t9), t67);
    lemma_swap_terms(a.y.times(t57), a.x.times(t9), a.y.times(t3).plus(t67));
    let t68 = a.x.times(t26).plus(a.x.times(t9));
    let t69 = a.y.times(t57).plus(a.y.times(t3).plus(t67));
    let t70 = a.x.times(t26).plus(a.x.times(t9).plus(t69));
    S::law_plus_associates(a.x.times(t61), t68, t70);
    S::law_plus_associates(a.x.times(t26), a.x.times(t9), t70);
    lemma_swap_terms(a.x.times(t9), a.x.times(t26), a.x.times(t9).plus(t69));
    let t71 = a.x.times(t9).plus(a.x.times(t9).plus(t69));
    let t72 = a.x.times(t26).plus(a.x.times(t26).plus(t71));
    lemma_negated_sum(a.x.times(t61), t72);
    lemma_negated_sum(a.x.times(t26), a.x.times(t26).plus(t71));
    lemma_negated_sum(a.x.times(t26), t71);
    lemma_negated_sum(a.x.times(t9), a.x.times(t9).plus(t69));
    lemma_negated_sum(a.x.times(t9), t69);
    lemma_negated_sum(a.y.times(t57), a.y.times(t3).plus(t67));
    lemma_negated_sum(a.y.times(t3), t67);
    lemma_negated_sum(a.y.times(t3), a.z.times(t59));
    let t73 = a.x.times(t25).plus(a.x.times(t8).plus(t64));
    let t74 = a.y.times(t3).negated().plus(a.z.times(t59).negated());
    let t75 = a.y.times(t3).negated().plus(t74);
    let t76 = a.y.times(t57).negated().plus(t75);
    let t77 = a.x.times(t9).negated().plus(t76);
    let t78 = a.x.times(t9).negated().plus(t77);
    let t79 = a.x.times(t26).negated().plus(t78);
    let t80 = a.x.times(t26).negated().plus(t79);
    let t81 = a.x.times(t61).negated().plus(t80);
    S::law_plus_associates(a.x.times(t61), t73, t81);
    S::law_plus_associates(a.x.times(t25), a.x.times(t8).plus(t64), t81);
    S::law_plus_associates(a.x.times(t8), t64, t81);
    S::law_plus_associates(a.y.times(t27), a.y.times(t57).plus(t63), t81);
    S::law_plus_associates(a.y.times(t57), t63, t81);
    S::law_plus_associates(a.y.times(t2), a.z.times(t10).plus(t60), t81);
    S::law_plus_associates(a.z.times(t10), t60, t81);
    S::law_plus_associates(a.z.times(t4), a.z.times(t59), t81);
    lemma_swap_terms(a.z.times(t59), a.x.times(t61).negated(), t80);
    lemma_swap_terms(a.z.times(t59), a.x.times(t26).negated(), t79);
    lemma_swap_terms(a.z.times(t59), a.x.times(t26).negated(), t78);
    lemma_swap_terms(a.z.times(t59), a.x.times(t9).negated(), t77);
    lemma_swap_terms(a.z.times(t59), a.x.times(t9).negated(), t76);
    lemma_swap_terms(a.z.times(t59), a.y.times(t57).negated(), t75);
    lemma_swap_terms(a.z.times(t59), a.y.times(t3).negated(), t74);
    lemma_swap_terms(a.z.times(t59), a.y.times(t3).negated(), a.z.times(t59).negated());
    S::law_plus_negated(a.z.times(t59));
    S::law_plus_zero(a.y.times(t3).negated());
    let t82 = a.y.times(t3).negated().plus(a.y.times(t3).negated());
    let t83 = a.y.times(t57).negated().plus(t82);
    let t84 = a.x.times(t9).negated().plus(t83);
    let t85 = a.x.times(t9).negated().plus(t84);
    let t86 = a.x.times(t26).negated().plus(t85);
    let t87 = a.x.times(t26).negated().plus(t86);
    lemma_swap_terms(a.z.times(t4), a.x.times(t61).negated(), t87);
    lemma_swap_terms(a.z.times(t4), a.x.times(t26).negated(), t86);
    lemma_swap_terms(a.z.times(t4), a.x.times(t26).negated(), t85);
    lemma_swap_terms(a.z.times(t4), a.x.times(t9).negated(), t84);
    lemma_swap_terms(a.z.times(t4), a.x.times(t9).negated(), t83);
    lemma_swap_terms(a.z.times(t4), a.y.times(t57).negated(), t82);
    lemma_swap_terms(a.z.times(t4), a.y.times(t3).negated(), a.y.times(t3).negated());
    S::law_plus_commutes(a.z.times(t4), a.y.times(t3).negated());
    let t88 = a.y.times(t57).negated().plus(t12);
    let t89 = a.x.times(t9).negated().plus(t88);
    let t90 = a.x.times(t9).negated().plus(t89);
    let t91 = a.x.times(t26).negated().plus(t90);
    let t92 = a.x.times(t26).negated().plus(t91);
    lemma_swap_terms(a.z.times(t10), a.x.times(t61).negated(), t92);
    lemma_swap_terms(a.z.times(t10), a.x.times(t26).negated(), t91);
    lemma_swap_terms(a.z.times(t10), a.x.times(t26).negated(), t90);
    lemma_swap_terms(a.z.times(t10), a.x.times(t9).negated(), t89);
    lemma_swap_terms(a.z.times(t10), a.x.times(t9).negated(), t88);
    lemma_swap_terms(a.z.times(t10), a.y.times(t57).negated(), t12);
    lemma_swap_terms(a.z.times(t10), a.y.times(t3).negated(), t5);
    lemma_swap_terms(a.z.times(t10), a.y.times(t3).negated(), a.z.times(t4));
    let t93 = a.y.times(t57).negated().plus(t20);
    let t94 = a.x.times(t9).negated().plus(t93);
    let t95 = a.x.times(t9).negated().plus(t94);
    let t96 = a.x.times(t26).negated().plus(t95);
    let t97 = a.x.times(t26).negated().plus(t96);
    lemma_swap_terms(a.y.times(t2), a.x.times(t61).negated(), t97);
    lemma_swap_terms(a.y.times(t2), a.x.times(t26).negated(), t96);
    lemma_swap_terms(a.y.times(t2), a.x.times(t26).negated(), t95);
    lemma_swap_terms(a.y.times(t2), a.x.times(t9).negated(), t94);
    lemma_swap_terms(a.y.times(t2), a.x.times(t9).negated(), t93);
    lemma_swap_terms(a.y.times(t2), a.y.times(t57).negated(), t20);
    let t98 = a.y.times(t57).negated().plus(a.y.times(t2).plus(t20));
    let t99 = a.x.times(t9).negated().plus(t98);
    let t100 = a.x.times(t9).negated().plus(t99);
    let t101 = a.x.times(t26).negated().plus(t100);
    let t102 = a.x.times(t26).negated().plus(t101);
    lemma_swap_terms(a.y.times(t57), a.x.times(t61).negated(), t102);
    lemma_swap_terms(a.y.times(t57), a.x.times(t26).negated(), t101);
    lemma_swap_terms(a.y.times(t57), a.x.times(t26).negated(), t100);
    lemma_swap_terms(a.y.times(t57), a.x.times(t9).negated(), t99);
    lemma_swap_terms(a.y.times(t57), a.x.times(t9).negated(), t98);
    lemma_cancels_front(a.y.times(t57), a.y.times(t2).plus(t20));
    let t103 = a.x.times(t26).negated().plus(t30);
    let t104 = a.x.times(t26).negated().plus(t103);
    lemma_swap_terms(a.y.times(t27), a.x.times(t61).negated(), t104);
    lemma_swap_terms(a.y.times(t27), a.x.times(t26).negated(), t103);
    lemma_swap_terms(a.y.times(t27), a.x.times(t26).negated(), t30);
    lemma_swap_terms(a.y.times(t27), a.x.times(t9).negated(), t29);
    lemma_swap_terms(a.y.times(t27), a.x.times(t9).negated(), a.y.times(t2).plus(t20));
    lemma_swap_terms(a.x.times(t8), a.x.times(t61).negated(), t49);
    lemma_swap_terms(a.x.times(t25), a.x.times(t61).negated(), a.x.times(t8).plus(t49));
    let t105 = a.x.times(t25).plus(a.x.times(t8).plus(t49));
    lemma_cancels_front(a.x.times(t61), t105);
}

/// The squared determinant of a matrix of two dimensions is the product of
/// the squared lengths of its columns less the square of their dot product.
pub proof fn lemma_lagrange2<S: Field>(m: Matrix2x2<S>)
    ensures
        m.determinant_value().times(m.determinant_value()) == m.col0().dot_product(m.col0()).times(
            m.col1().dot_product(m.col1()),
        ).minus(m.col0().dot_product(m.col1()).times(m.col0().dot_product(m.col1()))),
{
    S::law_minus(m.c0r0.times(m.c1r1), m.c1r0.times(m.c0r1));
    S::law_times_commutes(m.c1r0, m.c0r1);
    let t0 = m.c0r1.times(m.c1r0).negated();
    let t1 = m.c0r0.times(m.c1r1).plus(t0);
    lemma_distributes_right(m.c0r0.times(m.c1r1), t0, t1);
    S::law_distributes(m.c0r0.times(m.c1r1), m.c0r0.times(m.c1r1), t0);
    S::law_times_associates(m.c0r0, m.c1r1, m.c0r0.times(m.c1r1));
    lemma_swap_factors(m.c1r1, m.c0r0, m.c1r1);
    lemma_times_negated(m.c0r0.times(m.c1r1), m.c0r1.times(m.c1r0));
    S::law_times_associates(m.c0r0, m.c1r1, m.c0r1.times(m.c1r0));
    lemma_swap_factors(m.c1r1, m.c0r1, m.c1r0);
    S::law_times_commutes(m.c1r1, m.c1r0);
    S::law_distributes(t0, m.c0r0.times(m.c1r1), t0);
    lemma_negated_times(m.c0r1.times(m.c1r0), m.c0r0.times(m.c1r1));
    S::law_times_associates(m.c0r1, m.c1r0, m.c0r0.times(m.c1r1));
    lemma_swap_factors(m.c1r0, m.c0r0, m.c1r1);
    lemma_swap_factors(m.c0r1, m.c0r0, m.c1r0.times(m.c1r1));
    lemma_negated_times(m.c0r1.times(m.c1r0), t0);
    lemma_times_negated(m.c0r1.times(m.c1r0), m.c0r1.times(m.c1r0));
    let t2 = m.c0r1.times(m.c1r0).times(m.c0r1.times(m.c1r0));
    lemma_negated_twice(t2);
    S::law_times_associates(m.c0r1, m.c1r0, m.c0r1.times(m.c1r0));
    lemma_swap_factors(m.c1r0, m.c0r1, m.c1r0);
    let t3 = m.c0r0.times(m.c1r1.times(m.c1r1));
    let t4 = m.c0r1.times(m.c1r0.times(m.c1r1));
    let t5 = m.c0r0.times(t4).negated();
    let t6 = m.c0r1.times(m.c1r0.times(m.c1r0));
    let t7 = t5.plus(m.c0r1.times(t6));
    S::law_plus_associates(m.c0r0.times(t3), t5, t7);
    let t8 = m.c0r0.times(m.c0r0).plus(m.c0r1.times(m.c0r1));
    let t9 = m.c1r0.times(m.c1r0).plus(m.c1r1.times(m.c1r1));
    let t10 = m.c0r0.times(m.c1r0).plus(m.c0r1.times(m.c1r1));
    S::law_minus(t8.times(t9), t10.times(t10));
    lemma_distributes_right(m.c0r0.times(m.c0r0), m.c0r1.times(m.c0r1), t9);
    S::law_distributes(m.c0r0.times(m.c0r0), m.c1r0.times(m.c1r0), m.c1r1.times(m.c1r1));
    S::law_times_associates(m.c0r0, m.c0r0, m.c1r0.times(m.c1r0));
    S::law_times_associates(m.c0r0, m.c0r0, m.c1r1.times(m.c1r1));
    S::law_distributes(m.c0r1.times(m.c0r1), m.c1r0.times(m.c1r0), m.c1r1.times(m.c1r1));
    S::law_times_associates(m.c0r1, m.c0r1, m.c1r0.times(m.c1r0));
    S::law_times_associates(m.c0r1, m.c0r1, m.c1r1.times(m.c1r1));
    let t11 = m.c0r0.times(m.c1r0.times(m.c1r0));
    let t12 = m.c0r1.times(m.c1r1.times(m.c1r1));
    let t13 = m.c0r1.times(t6).plus(m.c0r1.times(t12));
    S::law_plus_associates(m.c0r0.times(t11), m.c0r0.times(t3), t13);
    lemma_distributes_right(m.c0r0.times(m.c1r0), m.c0r1.times(m.c1r1), t10);
    S::law_distributes(m.c0r0.times(m.c1r0), m.c0r0.times(m.c1r0), m.c0r1.times(m.c1r1));
    S::law_times_associates(m.c0r0, m.c1r0, m.c0r0.times(m.c1r0));
    lemma_swap_factors(m.c1r0, m.c0r0, m.c1r0);
    S::law_times_associates(m.c0r0, m.c1r0, m.c0r1.times(m.c1r1));
    lemma_swap_factors(m.c1r0, m.c0r1, m.c1r1);
    S::law_distributes(m.c0r1.times(m.c1r1), m.c0r0.times(m.c1r0), m.c0r1.times(m.c1r1));
    S::law_times_associates(m.c0r1, m.c1r1, m.c0r0.times(m.c1r0));
    lemma_swap_factors(m.c1r1, m.c0r0, m.c1r0);
    S::law_times_commutes(m.c1r1, m.c1r0);
    lemma_swap_factors(m.c0r1, m.c0r0, m.c1r0.times(m.c1r1));
    S::law_times_associates(m.c0r1, m.c1r1, m.c0r1.times(m.c1r1));
    lemma_swap_factors(m.c1r1, m.c0r1, m.c1r1);
    let t14 = m.c0r0.times(t4).plus(m.c0r1.times(t12));
    S::law_plus_associates(m.c0r0.times(t11), m.c0r0.times(t4), t14);
    let t15 = m.c0r0.times(t4).plus(t14);
    lemma_negated_sum(m.c0r0.times(t11), t15);
    lemma_negated_sum(m.c0r0.times(t4), t14);
    lemma_negated_sum(m.c0r0.times(t4), m.c0r1.times(t12));
    let t16 = m.c0r0.times(t3).plus(t13);
    let t17 = m.c0r0.times(t11).negated();
    let t18 = m.c0r1.times(t12).negated();
    let t19 = t17.plus(t5.plus(t5.plus(t18)));
    S::law_plus_associates(m.c0r0.times(t11), t16, t19);
    S::law_plus_associates(m.c0r0.times(t3), t13, t19);
    S::law_plus_associates(m.c0r1.times(t6), m.c0r1.times(t12), t19);
    lemma_swap_terms(m.c0r1.times(t12), t17, t5.plus(t5.plus(t18)));
    lemma_swap_terms(m.c0r1.times(t12), t5, t5.plus(t18));
    lemma_swap_terms(m.c0r1.times(t12), t5, t18);
    S::law_plus_negated(m.c0r1.times(t12));
    S::law_plus_zero(t5);
    lemma_swap_terms(m.c0r1.times(t6), t17, t5.plus(t5));
    lemma_swap_terms(m.c0r1.times(t6), t5, t5);
    S::law_plus_commutes(m.c0r1.times(t6), t5);
    lemma_swap_terms(m.c0r0.times(t3), t17, t5.plus(t7));
    let t20 = m.c0r0.times(t3).plus(t5.plus(t7));
    lemma_cancels_front(m.c0r0.times(t11), t20);
}

/// The determinant of a product is the product of the determinants.
pub proof fn lemma_determinant2_times<S: Field>(a: Matrix2x2<S>, b: Matrix2x2<S>)
    ensures
        a.times(b).determinant_value() == a.determinant_value().times(b.determinant_value()),
{
    let t0 = a.c0r0.times(b.c0r0).plus(a.c1r0.times(b.c0r1));
    let t1 = a.c0r1.times(b.c1r0).plus(a.c1r1.times(b.c1r1));
    let t2 = a.c0r0.times(b.c1r0).plus(a.c1r0.times(b.c1r1));
    let t3 = a.c0r1.times(b.c0r0).plus(a.c1r1.times(b.c0r1));
    S::law_minus(t0.times(t1), t2.times(t3));
    lemma_distributes_right(a.c0r0.times(b.c0r0), a.c1r0.times(b.c0r1), t1);
    S::law_distributes(a.c0r0.times(b.c0r0), a.c0r1.times(b.c1r0), a.c1r1.times(b.c1r1));
    S::law_times_associates(a.c0r0, b.c0r0, a.c0r1.times(b.c1r0));
    lemma_swap_factors(b.c0r0, a.c0r1, b.c1r0);
    S::law_times_associates(a.c0r0, b.c0r0, a.c1r1.times(b.c1r1));
    lemma_swap_factors(b.c0r0, a.c1r1, b.c1r1);
    S::law_distributes(a.c1r0.times(b.c0r1), a.c0r1.times(b.c1r0), a.c1r1.times(b.c1r1));
    S::law_times_associates(a.c1r0, b.c0r1, a.c0r1.times(b.c1r0));
    lemma_swap_factors(b.c0r1, a.c0r1, b.c1r0);
    lemma_swap_factors(a.c1r0, a.c0r1, b.c0r1.times(b.c1r0));
    S::law_times_associates(a.c1r0, b.c0r1, a.c1r1.times(b.c1r1));
    lemma_swap_factors(b.c0r1, a.c1r1, b.c1r1);
    let t4 = a.c0r1.times(b.c0r0.times(b.c1r0));
    let t5 = a.c1r1.times(b.c0r0.times(b.c1r1));
    let t6 = a.c1r0.times(b.c0r1.times(b.c1r0));
    let t7 = a.c1r1.times(b.c0r1.times(b.c1r1));
    let t8 = a.c0r1.times(t6).plus(a.c1r0.times(t7));
    S::law_plus_associates(a.c0r0.times(t4), a.c0r0.times(t5), t8);
    lemma_distributes_right(a.c0r0.times(b.c1r0), a.c1r0.times(b.c1r1), t3);
    S::law_distributes(a.c0r0.times(b.c1r0), a.c0r1.times(b.c0r0), a.c1r1.times(b.c0r1));
    S::law_times_associates(a.c0r0, b.c1r0, a.c0r1.times(b.c0r0));
    lemma_swap_factors(b.c1r0, a.c0r1, b.c0r0);
    S::law_times_commutes(b.c1r0, b.c0r0);
    S::law_times_associates(a.c0r0, b.c1r0, a.c1r1.times(b.c0r1));
    lemma_swap_factors(b.c1r0, a.c1r1, b.c0r1);
    S::law_times_commutes(b.c1r0, b.c0r1);
    S::law_distributes(a.c1r0.times(b.c1r1), a.c0r1.times(b.c0r0), a.c1r1.times(b.c0r1));
    S::law_times_associates(a.c1r0, b.c1r1, a.c0r1.times(b.c0r0));
    lemma_swap_factors(b.c1r1, a.c0r1, b.c0r0);
    S::law_times_commutes(b.c1r1, b.c0r0);
    lemma_swap_factors(a.c1r0, a.c0r1, b.c0r0.times(b.c1r1));
    S::law_times_associates(a.c1r0, b.c1r1, a.c1r1.times(b.c0r1));
    lemma_swap_factors(b.c1r1, a.c1r1, b.c0r1);
    S::law_times_commutes(b.c1r1, b.c0r1);
    let t9 = a.c1r1.times(b.c0r1.times(b.c1r0));
    let t10 = a.c1r0.times(b.c0r0.times(b.c1r1));
    let t11 = a.c0r1.times(t10).plus(a.c1r0.times(t7));
    S::law_plus_associates(a.c0r0.times(t4), a.c0r0.times(t9), t11);
    let t12 = a.c0r0.times(t9).plus(t11);
    lemma_negated_sum(a.c0r0.times(t4), t12);
    lemma_negated_sum(a.c0r0.times(t9), t11);
    lemma_negated_sum(a.c0r1.times(t10), a.c1r0.times(t7));
    let t13 = a.c0r0.times(t5).plus(t8);
    let t14 = a.c0r0.times(t4).negated();
    let t15 = a.c0r0.times(t9).negated();
    let t16 = a.c0r1.times(t10).negated();
    let t17 = a.c1r0.times(t7).negated();
    let t18 = t14.plus(t15.plus(t16.plus(t17)));
    S::law_plus_associates(a.c0r0.times(t4), t13, t18);
    S::law_plus_associates(a.c0r0.times(t5), t8, t18);
    S::law_plus_associates(a.c0r1.times(t6), a.c1r0.times(t7), t18);
    lemma_swap_terms(a.c1r0.times(t7), t14, t15.plus(t16.plus(t17)));
    lemma_swap_terms(a.c1r0.times(t7), t15, t16.plus(t17));
    lemma_swap_terms(a.c1r0.times(t7), t16, t17);
    S::law_plus_negated(a.c1r0.times(t7));
    S::law_plus_zero(t16);
    lemma_swap_terms(a.c0r1.times(t6), t14, t15.plus(t16));
    lemma_swap_terms(a.c0r1.times(t6), t15, t16);
    S::law_plus_commutes(a.c0r1.times(t6), t16);
    let t19 = t16.plus(a.c0r1.times(t6));
    lemma_swap_terms(a.c0r0.times(t5), t14, t15.plus(t19));
    let t20 = a.c0r0.times(t5).plus(t15.plus(t19));
    lemma_cancels_front(a.c0r0.times(t4), t20);
    S::law_minus(a.c0r0.times(a.c1r1), a.c1r0.times(a.c0r1));
    S::law_times_commutes(a.c1r0, a.c0r1);
    S::law_minus(b.c0r0.times(b.c1r1), b.c1r0.times(b.c0r1));
    S::law_times_commutes(b.c1r0, b.c0r1);
    let t21 = a.c0r1.times(a.c1r0).negated();
    let t22 = b.c0r1.times(b.c1r0).negated();
    let t23 = b.c0r0.times(b.c1r1).plus(t22);
    lemma_distributes_right(a.c0r0.times(a.c1r1), t21, t23);
    S::law_distributes(a.c0r0.times(a.c1r1), b.c0r0.times(b.c1r1), t22);
    S::law_times_associates(a.c0r0, a.c1r1, b.c0r0.times(b.c1r1));
    lemma_times_negated(a.c0r0.times(a.c1r1), b.c0r1.times(b.c1r0));
    S::law_times_associates(a.c0r0, a.c1r1, b.c0r1.times(b.c1r0));
    S::law_distributes(t21, b.c0r0.times(b.c1r1), t22);
    lemma_negated_times(a.c0r1.times(a.c1r0), b.c0r0.times(b.c1r1));
    S::law_times_associates(a.c0r1, a.c1r0, b.c0r0.times(b.c1r1));
    lemma_negated_times(a.c0r1.times(a.c1r0), t22);
    lemma_times_negated(a.c0r1.times(a.c1r0), b.c0r1.times(b.c1r0));
    let t24 = a.c0r1.times(a.c1r0).times(b.c0r1.times(b.c1r0));
    lemma_negated_twice(t24);
    S::law_times_associates(a.c0r1, a.c1r0, b.c0r1.times(b.c1r0));
    S::law_plus_associates(a.c0r0.times(t5), t15, t19);
}

/// A matrix times the identity scaled by `d` is the matrix scaled by `d`.
pub proof fn lemma_times3_scalar<S: Field>(m: Matrix3x3<S>, d: S)
    ensures
        m.times(Matrix3x3::scalar_value(d)) == m.scaled_by(d),
{
    let zero = S::zero_value();
    S::law_plus_zero(zero);
    S::law_times_commutes(m.c0r0, d);
    S::law_times_commutes(m.c0r1, d);
    S::law_times_commutes(m.c0r2, d);
    S::law_times_commutes(m.c1r0, d);
    S::law_times_commutes(m.c1r1, d);
    S::law_times_commutes(m.c1r2, d);
    S::law_times_commutes(m.c2r0, d);
    S::law_times_commutes(m.c2r1, d);
    S::law_times_commutes(m.c2r2, d);
    lemma_times_zero(m.c0r0);
    lemma_times_zero(m.c0r1);
    lemma_times_zero(m.c0r2);
    lemma_times_zero(m.c1r0);
    lemma_times_zero(m.c1r1);
    lemma_times_zero(m.c1r2);
    lemma_times_zero(m.c2r0);
    lemma_times_zero(m.c2r1);
    lemma_times_zero(m.c2r2);
    S::law_plus_zero(d.times(m.c0r0));
    S::law_plus_zero(d.times(m.c0r1));
    S::law_plus_zero(d.times(m.c0r2));
    lemma_zero_plus(d.times(m.c1r0));
    lemma_zero_plus(d.times(m.c1r1));
    lemma_zero_plus(d.times(m.c1r2));
    S::law_plus_zero(d.times(m.c1r0));
    S::law_plus_zero(d.times(m.c1r1));
    S::law_plus_zero(d.times(m.c1r2));
    lemma_zero_plus(d.times(m.c2r0));
    lemma_zero_plus(d.times(m.c2r1));
    lemma_zero_plus(d.times(m.c2r2));
}

/// A matrix of two dimensions times the identity scaled by `d` is the matrix
/// scaled by `d`.
pub proof fn lemma_times2_scalar<S: Field>(m: Matrix2x2<S>, d: S)
    ensures
        m.times(Matrix2x2::scalar_value(d)) == m.scaled_by(d),
{
    S::law_times_commutes(m.c0r0, d);
    S::law_times_commutes(m.c0r1, d);
    S::law_times_commutes(m.c1r0, d);
    S::law_times_commutes(m.c1r1, d);
    lemma_times_zero(m.c0r0);
    lemma_times_zero(m.c0r1);
    lemma_times_zero(m.c1r0);
    lemma_times_zero(m.c1r1);
    S::law_plus_zero(d.times(m.c0r0));
    S::law_plus_zero(d.times(m.c0r1));
    lemma_zero_plus(d.times(m.c1r0));
    lemma_zero_plus(d.times(m.c1r1));
}

/// A factor on the right matrix of a product can be taken out.
pub proof fn lemma_times3_scaled_by<S: Field>(m: Matrix3x3<S>, n: Matrix3x3<S>, d: S)
    ensures
        m.times(n.scaled_by(d)) == m.times(n).scaled_by(d),
{
    lemma_apply3_scaled_by(m, n.col0(), d);
    lemma_apply3_scaled_by(m, n.col1(), d);
    lemma_apply3_scaled_by(m, n.col2(), d);
}

/// A matrix of two dimensions commutes with scaling on the left.
pub proof fn lemma_apply2_scaled_by<S: Field>(m: Matrix2x2<S>, v: Vector2<S>, k: S)
    ensures
        m.apply(v.scaled_by(k)) == m.apply(v).scaled_by(k),
{
    S::law_times_commutes(k, v.x);
    S::law_times_commutes(k, v.y);
    lemma_apply2_scaled(m, v, k);
    let w = m.apply(v);
    S::law_times_commutes(k, w.x);
    S::law_times_commutes(k, w.y);
}

/// A factor on the right matrix of a product can be taken out.
pub proof fn lemma_times2_scaled_by<S: Field>(m: Matrix2x2<S>, n: Matrix2x2<S>, d: S)
    ensures
        m.times(n.scaled_by(d)) == m.times(n).scaled_by(d),
{
    lemma_apply2_scaled_by(m, n.col0(), d);
    lemma_apply2_scaled_by(m, n.col1(), d);
}

/// A matrix with orthonormal columns has a determinant other than zero, its
/// transpose is its inverse on the other side too, and so its rows are
/// orthonormal as well.
pub proof fn lemma_orthogonal3_transpose_is_inverse<S: Field>(m: Matrix3x3<S>)
    requires
        m.transposed().times(m) == Matrix3x3::<S>::identity_value(),
    ensures
        !m.determinant_value().vanishes(),
        m.times(m.transposed()) == Matrix3x3::<S>::identity_value(),
{
    let (zero, one) = (S::zero_value(), S::one_value());
    let d = m.determinant_value();
    let mt = m.transposed();
    let adj = m.adjugate();
    // adj m = m' (m adj m) = m' (d I) = d m'
    lemma_times3_adjugate(m);
    lemma_times3_associates(mt, m, adj);
    lemma_times3_identity(adj);
    lemma_times3_scalar(mt, d);
    S::law_vanishes(d);
    if d == zero {
        // then the cross product of the first two columns is zero, yet its
        // squared length is one
        let (c0, c1) = (m.col0(), m.col1());
        lemma_adjugate3_transposes(m);
        lemma_zero_times(m.c0r2);
        lemma_zero_times(m.c1r2);
        lemma_zero_times(m.c2r2);
        lemma_lagrange3(c0, c1);
        lemma_times_zero(zero);
        S::law_plus_zero(zero);
        S::law_times_one(one);
        lemma_minus_self(zero);
        S::law_minus(one, zero);
        lemma_negated_zero::<S>();
        S::law_plus_zero(one);
        S::law_nontrivial();
    }
    // d (m m') = m (d m') = m adj m = d I
    lemma_times3_scaled_by(m, mt, d);
    let p = m.times(mt);
    S::law_times_one(d);
    lemma_times_zero(d);
    lemma_cancel_factor(d, p.c0r0, one);
    lemma_cancel_factor(d, p.c0r1, zero);
    lemma_cancel_factor(d, p.c0r2, zero);
    lemma_cancel_factor(d, p.c1r0, zero);
    lemma_cancel_factor(d, p.c1r1, one);
    lemma_cancel_factor(d, p.c1r2, zero);
    lemma_cancel_factor(d, p.c2r0, zero);
    lemma_cancel_factor(d, p.c2r1, zero);
    lemma_cancel_factor(d, p.c2r2, one);
}

/// A matrix of two dimensions with orthonormal columns has a determinant
/// other than zero, and its transpose is its inverse on the other side too.
pub proof fn lemma_orthogonal2_transpose_is_inverse<S: Field>(m: Matrix2x2<S>)
    requires
        m.transposed().times(m) == Matrix2x2::<S>::identity_value(),
    ensures
        !m.determinant_value().vanishes(),
        m.times(m.transposed()) == Matrix2x2::<S>::identity_value(),
{
    let (zero, one) = (S::zero_value(), S::one_value());
    let d = m.determinant_value();
    let mt = m.transposed();
    let adj = m.adjugate();
    // the squared determinant is one
    lemma_lagrange2(m);
    S::law_times_one(one);
    lemma_times_zero(zero);
    S::law_minus(one, zero);
    lemma_negated_zero::<S>();
    S::law_plus_zero(one);
    S::law_vanishes(d);
    S::law_nontrivial();
    // adj m = m' (m adj m) = d m'
    lemma_times2_adjugate(m);
    lemma_times2_associates(mt, m, adj);
    lemma_times2_identity(adj);
    lemma_times2_scalar(mt, d);
    // d (m m') = m adj m = d I
    lemma_times2_scaled_by(m, mt, d);
    let p = m.times(mt);
    S::law_times_one(d);
    lemma_times_zero(d);
    lemma_cancel_factor(d, p.c0r0, one);
    lemma_cancel_factor(d, p.c0r1, zero);
    lemma_cancel_factor(d, p.c1r0, zero);
    lemma_cancel_factor(d, p.c1r1, one);
}

/// The triple product changes its sign when its first two vectors are
/// exchanged.
pub proof fn lemma_triple_swaps<S: Field>(a: Vector3<S>, b: Vector3<S>, c: Vector3<S>)
    ensures
        triple_product(b, a, c) == triple_product(a, b, c).negated(),
{
    S::law_minus(a.y.times(c.z), a.z.times(c.y));
    S::law_distributes(b.x, a.y.times(c.z), a.z.times(c.y).negated());
    lemma_swap_factors(b.x, a.y, c.z);
    lemma_times_negated(b.x, a.z.times(c.y));
    lemma_swap_factors(b.x, a.z, c.y);
    S::law_minus(a.z.times(c.x), a.x.times(c.z));
    S::law_plus_commutes(a.z.times(c.x), a.x.times(c.z).negated());
    S::law_distributes(b.y, a.x.times(c.z).negated(), a.z.times(c.x));
    lemma_times_negated(b.y, a.x.times(c.z));
    lemma_swap_factors(b.y, a.x, c.z);
    lemma_swap_factors(b.y, a.z, c.x);
    let t0 = a.y.times(b.x.times(c.z));
    let t1 = a.z.times(b.x.times(c.y));
    let t2 = a.x.times(b.y.times(c.z));
    let t3 = a.z.times(b.y.times(c.x));
    S::law_plus_associates(t0, t1.negated(), t2.negated().plus(t3));
    lemma_swap_terms(t1.negated(), t2.negated(), t3);
    lemma_swap_terms(t0, t2.negated(), t1.negated().plus(t3));
    S::law_minus(a.x.times(c.y), a.y.times(c.x));
    S::law_distributes(b.z, a.x.times(c.y), a.y.times(c.x).negated());
    lemma_swap_factors(b.z, a.x, c.y);
    lemma_times_negated(b.z, a.y.times(c.x));
    lemma_swap_factors(b.z, a.y, c.x);
    let t4 = t0.plus(t1.negated().plus(t3));
    let t5 = a.x.times(b.z.times(c.y));
    let t6 = a.y.times(b.z.times(c.x));
    S::law_plus_associates(t2.negated(), t4, t5.plus(t6.negated()));
    S::law_plus_associates(t0, t1.negated().plus(t3), t5.plus(t6.negated()));
    S::law_plus_associates(t1.negated(), t3, t5.plus(t6.negated()));
    lemma_swap_terms(t3, t5, t6.negated());
    S::law_plus_commutes(t3, t6.negated());
    lemma_swap_terms(t1.negated(), t5, t6.negated().plus(t3));
    lemma_swap_terms(t1.negated(), t6.negated(), t3);
    let t7 = t6.negated().plus(t1.negated().plus(t3));
    lemma_swap_terms(t0, t5, t7);
    S::law_minus(b.y.times(c.z), b.z.times(c.y));
    S::law_distributes(a.x, b.y.times(c.z), b.z.times(c.y).negated());
    lemma_times_negated(a.x, b.z.times(c.y));
    S::law_minus(b.z.times(c.x), b.x.times(c.z));
    S::law_plus_commutes(b.z.times(c.x), b.x.times(c.z).negated());
    S::law_distributes(a.y, b.x.times(c.z).negated(), b.z.times(c.x));
    lemma_times_negated(a.y, b.x.times(c.z));
    S::law_plus_associates(t2, t5.negated(), t0.negated().plus(t6));
    S::law_minus(b.x.times(c.y), b.y.times(c.x));
    S::law_distributes(a.z, b.x.times(c.y), b.y.times(c.x).negated());
    lemma_times_negated(a.z, b.y.times(c.x));
    let t8 = t5.negated().plus(t0.negated().plus(t6));
    S::law_plus_associates(t2, t8, t1.plus(t3.negated()));
    S::law_plus_associates(t5.negated(), t0.negated().plus(t6), t1.plus(t3.negated()));
    S::law_plus_associates(t0.negated(), t6, t1.plus(t3.negated()));
    let t9 = t6.plus(t1.plus(t3.negated()));
    let t10 = t5.negated().plus(t0.negated().plus(t9));
    lemma_negated_sum(t2, t10);
    lemma_negated_sum(t5.negated(), t0.negated().plus(t9));
    lemma_negated_twice(t5);
    lemma_negated_sum(t0.negated(), t9);
    lemma_negated_twice(t0);
    lemma_negated_sum(t6, t1.plus(t3.negated()));
    lemma_negated_sum(t1, t3.negated());
    lemma_negated_twice(t3);
}

/// The sum over all ways to pick one entry from each row of `a`, each product
/// weighted with `d`, `-d` or zero as the three places picked are an even
/// permutation, an odd one, or none, is the determinant of `a` times `d`.
proof fn lemma_determinant3_expands<S: Field>(a: Matrix3x3<S>, d: S)
    ensures
        ({
            let zero = S::zero_value();
            weighted3(
                a.row0(),
                weighted3(
                    a.row1(),
                    weighted3(a.row2(), zero, zero, zero),
                    weighted3(a.row2(), zero, zero, d),
                    weighted3(a.row2(), zero, d.negated(), zero),
                ),
                weighted3(
                    a.row1(),
                    weighted3(a.row2(), zero, zero, d.negated()),
                    weighted3(a.row2(), zero, zero, zero),
                    weighted3(a.row2(), d, zero, zero),
                ),
                weighted3(
                    a.row1(),
                    weighted3(a.row2(), zero, d, zero),
                    weighted3(a.row2(), d.negated(), zero, zero),
                    weighted3(a.row2(), zero, zero, zero),
                ),
            ) == a.determinant_value().times(d)
        }),
{
    lemma_times_zero(a.c0r2);
    lemma_times_zero(a.c1r2);
    lemma_zero_plus(S::zero_value());
    lemma_times_zero(a.c2r2);
    lemma_zero_plus(S::zero_value());
    lemma_times_zero(a.c0r1);
    lemma_zero_plus(a.c2r2.times(d));
    let t0 = a.c1r1.times(a.c2r2.times(d));
    lemma_zero_plus(t0);
    lemma_times_negated(a.c1r2, d);
    let t1 = a.c1r2.times(d).negated();
    lemma_zero_plus(t1);
    S::law_plus_zero(t1);
    lemma_times_negated(a.c2r1, a.c1r2.times(d));
    lemma_swap_factors(a.c2r1, a.c1r2, d);
    let t2 = a.c1r2.times(a.c2r1.times(d));
    S::law_distributes(a.c0r0, t0, t2.negated());
    lemma_times_negated(a.c0r0, t2);
    lemma_times_negated(a.c2r2, d);
    let t3 = a.c2r2.times(d).negated();
    lemma_zero_plus(t3);
    lemma_times_negated(a.c0r1, a.c2r2.times(d));
    lemma_times_zero(a.c1r1);
    let t4 = a.c0r1.times(a.c2r2.times(d));
    S::law_plus_zero(t4.negated());
    S::law_plus_zero(a.c0r2.times(d));
    S::law_plus_zero(a.c0r2.times(d));
    lemma_swap_factors(a.c2r1, a.c0r2, d);
    let t5 = a.c0r2.times(a.c2r1.times(d));
    S::law_distributes(a.c1r0, t4.negated(), t5);
    lemma_times_negated(a.c1r0, t4);
    lemma_swap_factors(a.c1r0, a.c0r1, a.c2r2.times(d));
    lemma_swap_factors(a.c1r0, a.c0r2, a.c2r1.times(d));
    let t6 = a.c0r0.times(t2).negated();
    let t7 = a.c1r0.times(a.c2r2.times(d));
    let t8 = a.c0r1.times(t7).negated();
    let t9 = a.c1r0.times(a.c2r1.times(d));
    let t10 = t8.plus(a.c0r2.times(t9));
    S::law_plus_associates(a.c0r0.times(t0), t6, t10);
    lemma_zero_plus(a.c1r2.times(d));
    S::law_plus_zero(a.c1r2.times(d));
    lemma_times_negated(a.c0r2, d);
    let t11 = a.c0r2.times(d).negated();
    S::law_plus_zero(t11);
    S::law_plus_zero(t11);
    lemma_times_negated(a.c1r1, a.c0r2.times(d));
    lemma_swap_factors(a.c1r1, a.c0r2, d);
    lemma_times_zero(a.c2r1);
    let t12 = a.c0r1.times(a.c1r2.times(d));
    let t13 = a.c0r2.times(a.c1r1.times(d));
    S::law_plus_zero(t12.plus(t13.negated()));
    S::law_distributes(a.c2r0, t12, t13.negated());
    lemma_swap_factors(a.c2r0, a.c0r1, a.c1r2.times(d));
    lemma_swap_factors(a.c2r0, a.c1r2, d);
    lemma_times_negated(a.c2r0, t13);
    lemma_swap_factors(a.c2r0, a.c0r2, a.c1r1.times(d));
    lemma_swap_factors(a.c2r0, a.c1r1, d);
    let t14 = a.c1r2.times(a.c2r0.times(d));
    let t15 = a.c1r1.times(a.c2r0.times(d));
    let t16 = a.c0r2.times(t15).negated();
    let t17 = a.c0r1.times(t14).plus(t16);
    S::law_plus_associates(a.c0r0.times(t0), t6.plus(t10), t17);
    S::law_plus_associates(t6, t10, t17);
    S::law_plus_associates(t8, a.c0r2.times(t9), t17);
    lemma_swap_terms(a.c0r2.times(t9), a.c0r1.times(t14), t16);
    S::law_minus(a.c1r1.times(a.c2r2), a.c2r1.times(a.c1r2));
    S::law_times_commutes(a.c2r1, a.c1r2);
    let t18 = a.c1r2.times(a.c2r1).negated();
    S::law_distributes(a.c0r0, a.c1r1.times(a.c2r2), t18);
    lemma_times_negated(a.c0r0, a.c1r2.times(a.c2r1));
    S::law_minus(a.c2r1.times(a.c0r2), a.c0r1.times(a.c2r2));
    S::law_times_commutes(a.c2r1, a.c0r2);
    let t19 = a.c0r1.times(a.c2r2).negated();
    S::law_plus_commutes(a.c0r2.times(a.c2r1), t19);
    S::law_distributes(a.c1r0, t19, a.c0r2.times(a.c2r1));
    lemma_times_negated(a.c1r0, a.c0r1.times(a.c2r2));
    lemma_swap_factors(a.c1r0, a.c0r1, a.c2r2);
    lemma_swap_factors(a.c1r0, a.c0r2, a.c2r1);
    let t20 = a.c0r0.times(a.c1r1.times(a.c2r2));
    let t21 = a.c0r0.times(a.c1r2.times(a.c2r1));
    let t22 = a.c0r1.times(a.c1r0.times(a.c2r2));
    let t23 = a.c0r2.times(a.c1r0.times(a.c2r1));
    S::law_plus_associates(t20, t21.negated(), t22.negated().plus(t23));
    S::law_minus(a.c0r1.times(a.c1r2), a.c1r1.times(a.c0r2));
    S::law_times_commutes(a.c1r1, a.c0r2);
    let t24 = a.c0r2.times(a.c1r1).negated();
    S::law_distributes(a.c2r0, a.c0r1.times(a.c1r2), t24);
    lemma_swap_factors(a.c2r0, a.c0r1, a.c1r2);
    S::law_times_commutes(a.c2r0, a.c1r2);
    lemma_times_negated(a.c2r0, a.c0r2.times(a.c1r1));
    lemma_swap_factors(a.c2r0, a.c0r2, a.c1r1);
    S::law_times_commutes(a.c2r0, a.c1r1);
    let t25 = t21.negated().plus(t22.negated().plus(t23));
    let t26 = a.c0r1.times(a.c1r2.times(a.c2r0));
    let t27 = a.c0r2.times(a.c1r1.times(a.c2r0));
    S::law_plus_associates(t20, t25, t26.plus(t27.negated()));
    S::law_plus_associates(t21.negated(), t22.negated().plus(t23), t26.plus(t27.negated()));
    S::law_plus_associates(t22.negated(), t23, t26.plus(t27.negated()));
    lemma_swap_terms(t23, t26, t27.negated());
    let t28 = t26.plus(t23.plus(t27.negated()));
    let t29 = t21.negated().plus(t22.negated().plus(t28));
    lemma_distributes_right(t20, t29, d);
    S::law_times_associates(a.c0r0, a.c1r1.times(a.c2r2), d);
    S::law_times_associates(a.c1r1, a.c2r2, d);
    lemma_distributes_right(t21.negated(), t22.negated().plus(t28), d);
    lemma_negated_times(t21, d);
    S::law_times_associates(a.c0r0, a.c1r2.times(a.c2r1), d);
    S::law_times_associates(a.c1r2, a.c2r1, d);
    lemma_distributes_right(t22.negated(), t28, d);
    lemma_negated_times(t22, d);
    S::law_times_associates(a.c0r1, a.c1r0.times(a.c2r2), d);
    S::law_times_associates(a.c1r0, a.c2r2, d);
    lemma_distributes_right(t26, t23.plus(t27.negated()), d);
    S::law_times_associates(a.c0r1, a.c1r2.times(a.c2r0), d);
    S::law_times_associates(a.c1r2, a.c2r0, d);
    lemma_distributes_right(t23, t27.negated(), d);
    S::law_times_associates(a.c0r2, a.c1r0.times(a.c2r1), d);
    S::law_times_associates(a.c1r0, a.c2r1, d);
    lemma_negated_times(t27, d);
    S::law_times_associates(a.c0r2, a.c1r1.times(a.c2r0), d);
    S::law_times_associates(a.c1r1, a.c2r0, d);
}

/// The combination of three numbers with the coordinates of `row` as weights.
pub open spec fn weighted3<S: Field>(row: Vector3<S>, p: S, q: S, r: S) -> S {
    row.x.times(p).plus(row.y.times(q)).plus(row.z.times(r))
}

/// The row vector `row` times the matrix `b`: the combination of the rows of
/// `b` with the coordinates of `row` as weights.
pub open spec fn row_times<S: Field>(row: Vector3<S>, b: Matrix3x3<S>) -> Vector3<S> {
    b.row0().scaled_by(row.x).plus(b.row1().scaled_by(row.y)).plus(b.row2().scaled_by(row.z))
}

/// The triple product is linear in its first vector.
proof fn lemma_triple_combines<S: Field>(
    row: Vector3<S>,
    b: Matrix3x3<S>,
    p: Vector3<S>,
    q: Vector3<S>,
)
    ensures
        triple_product(row_times(row, b), p, q) == weighted3(
            row,
            triple_product(b.row0(), p, q),
            triple_product(b.row1(), p, q),
            triple_product(b.row2(), p, q),
        ),
{
    let n = p.cross_product(q);
    let u = b.row0().scaled_by(row.x);
    let v = b.row1().scaled_by(row.y);
    let w = b.row2().scaled_by(row.z);
    lemma_dot3_commutes(u.plus(v).plus(w), n);
    lemma_dot3_plus(n, u.plus(v), w);
    lemma_dot3_plus(n, u, v);
    lemma_dot3_commutes(n, u);
    lemma_dot3_commutes(n, v);
    lemma_dot3_commutes(n, w);
    lemma_dot3_scaled_by(b.row0(), n, row.x);
    lemma_dot3_scaled_by(b.row1(), n, row.y);
    lemma_dot3_scaled_by(b.row2(), n, row.z);
}

/// A triple product with a vector repeated is zero.
proof fn lemma_triple_vanishes<S: Field>(a: Vector3<S>, b: Vector3<S>)
    ensures
        triple_product(a, a, b) == S::zero_value(),
        triple_product(b, a, b) == S::zero_value(),
        triple_product(b, a, a) == S::zero_value(),
        triple_product(a, a, a) == S::zero_value(),
{
    lemma_triple_repeats(a, b);
    lemma_triple_repeats(a, a);
    lemma_triple_cycles(b, a, a);
}

/// The determinant of a product is the product of the determinants.
pub proof fn lemma_determinant3_times<S: Field>(a: Matrix3x3<S>, b: Matrix3x3<S>)
    ensures
        a.times(b).determinant_value() == a.determinant_value().times(b.determinant_value()),
{
    let (b0, b1, b2) = (b.row0(), b.row1(), b.row2());
    // each row of the product is a combination of the rows of b
    let l1 = row_times(a.row1(), b);
    let l2 = row_times(a.row2(), b);
    // expand the first row, then the second, then the third
    lemma_triple_combines(a.row0(), b, l1, l2);
    lemma_triple_cycles(b0, l1, l2);
    lemma_triple_cycles(b1, l1, l2);
    lemma_triple_cycles(b2, l1, l2);
    lemma_triple_combines(a.row1(), b, l2, b0);
    lemma_triple_combines(a.row1(), b, l2, b1);
    lemma_triple_combines(a.row1(), b, l2, b2);
    lemma_triple_cycles(b0, l2, b0);
    lemma_triple_cycles(b1, l2, b0);
    lemma_triple_cycles(b2, l2, b0);
    lemma_triple_cycles(b0, l2, b1);
    lemma_triple_cycles(b1, l2, b1);
    lemma_triple_cycles(b2, l2, b1);
    lemma_triple_cycles(b0, l2, b2);
    lemma_triple_cycles(b1, l2, b2);
    lemma_triple_cycles(b2, l2, b2);
    lemma_triple_combines(a.row2(), b, b0, b0);
    lemma_triple_combines(a.row2(), b, b0, b1);
    lemma_triple_combines(a.row2(), b, b0, b2);
    lemma_triple_combines(a.row2(), b, b1, b0);
    lemma_triple_combines(a.row2(), b, b1, b1);
    lemma_triple_combines(a.row2(), b, b1, b2);
    lemma_triple_combines(a.row2(), b, b2, b0);
    lemma_triple_combines(a.row2(), b, b2, b1);
    lemma_triple_combines(a.row2(), b, b2, b2);
    // the triple products of the rows of b: zero where a row repeats, and
    // plus or minus the determinant of b otherwise
    lemma_triple_vanishes(b0, b1);
    lemma_triple_vanishes(b0, b2);
    lemma_triple_vanishes(b1, b0);
    lemma_triple_vanishes(b1, b2);
    lemma_triple_vanishes(b2, b0);
    lemma_triple_vanishes(b2, b1);
    lemma_triple_cycles(b0, b1, b2);
    lemma_triple_swaps(b0, b1, b2);
    lemma_triple_swaps(b2, b0, b1);
    lemma_triple_swaps(b1, b2, b0);
    lemma_determinant3_expands(a, b.determinant_value());
}

} // verus!
