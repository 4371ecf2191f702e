//! Consequences of the field laws: identities of scalars, and the linearity
//! of dot products and of matrices acting on vectors.
//!
//! Everything here is proved for an arbitrary [`Field`], from its laws alone.

use crate::matrix::{Matrix2x2, Matrix3x3, Matrix4x4};
use crate::scalar::Field;
use crate::vector::{Vector2, Vector3, Vector4};
use vstd::prelude::*;

verus! {

/// `0 + a = a`.
pub proof fn lemma_zero_plus<S: Field>(a: S)
    ensures
        S::zero_value().plus(a) == a,
{
    S::law_plus_commutes(S::zero_value(), a);
    S::law_plus_zero(a);
}

/// `1 * a = a`.
pub proof fn lemma_one_times<S: Field>(a: S)
    ensures
        S::one_value().times(a) == a,
{
    S::law_times_commutes(S::one_value(), a);
    S::law_times_one(a);
}

/// `(-a) + a = 0`.
pub proof fn lemma_negated_plus<S: Field>(a: S)
    ensures
        a.negated().plus(a) == S::zero_value(),
{
    S::law_plus_commutes(a.negated(), a);
    S::law_plus_negated(a);
}

/// A summand can be cancelled on the left.
pub proof fn lemma_plus_cancels<S: Field>(a: S, b: S, c: S)
    requires
        a.plus(b) == a.plus(c),
    ensures
        b == c,
{
    S::law_plus_associates(a.negated(), a, b);
    S::law_plus_associates(a.negated(), a, c);
    lemma_negated_plus(a);
    lemma_zero_plus(b);
    lemma_zero_plus(c);
}

/// The additive inverse is unique.
pub proof fn lemma_negated_is_unique<S: Field>(a: S, b: S)
    requires
        a.plus(b) == S::zero_value(),
    ensures
        b == a.negated(),
{
    S::law_plus_negated(a);
    lemma_plus_cancels(a, b, a.negated());
}

/// `a * 0 = 0`.
pub proof fn lemma_times_zero<S: Field>(a: S)
    ensures
        a.times(S::zero_value()) == S::zero_value(),
{
    let z = S::zero_value();
    let x = a.times(z);
    S::law_plus_zero(z);
    S::law_distributes(a, z, z);
    S::law_plus_zero(x);
    lemma_plus_cancels(x, x, z);
}

/// `0 * a = 0`.
pub proof fn lemma_zero_times<S: Field>(a: S)
    ensures
        S::zero_value().times(a) == S::zero_value(),
{
    S::law_times_commutes(S::zero_value(), a);
    lemma_times_zero(a);
}

/// `(a + b) * c = a * c + b * c`.
pub proof fn lemma_distributes_right<S: Field>(a: S, b: S, c: S)
    ensures
        a.plus(b).times(c) == a.times(c).plus(b.times(c)),
{
    S::law_times_commutes(a.plus(b), c);
    S::law_distributes(c, a, b);
    S::law_times_commutes(c, a);
    S::law_times_commutes(c, b);
}

/// `(k * a) * x = a * (x * k)`: a factor can move from the far left to the
/// far right.
pub proof fn lemma_factor_moves<S: Field>(k: S, a: S, x: S)
    ensures
        k.times(a).times(x) == a.times(x.times(k)),
{
    S::law_times_commutes(k, a);
    S::law_times_associates(a, k, x);
    S::law_times_commutes(k, x);
}

/// `a * (-b) = -(a * b)`.
pub proof fn lemma_times_negated<S: Field>(a: S, b: S)
    ensures
        a.times(b.negated()) == a.times(b).negated(),
{
    S::law_distributes(a, b, b.negated());
    S::law_plus_negated(b);
    lemma_times_zero(a);
    lemma_negated_is_unique(a.times(b), a.times(b.negated()));
}

/// `(-a) * b = -(a * b)`.
pub proof fn lemma_negated_times<S: Field>(a: S, b: S)
    ensures
        a.negated().times(b) == a.times(b).negated(),
{
    S::law_times_commutes(a.negated(), b);
    lemma_times_negated(b, a);
    S::law_times_commutes(b, a);
}

/// `-(a + b) = (-a) + (-b)`.
pub proof fn lemma_negated_sum<S: Field>(a: S, b: S)
    ensures
        a.plus(b).negated() == a.negated().plus(b.negated()),
{
    lemma_medial(a, b, a.negated(), b.negated());
    S::law_plus_negated(a);
    S::law_plus_negated(b);
    S::law_plus_zero(S::zero_value());
    lemma_negated_is_unique(a.plus(b), a.negated().plus(b.negated()));
}

/// `-(-a) = a`.
pub proof fn lemma_negated_twice<S: Field>(a: S)
    ensures
        a.negated().negated() == a,
{
    lemma_negated_plus(a);
    lemma_negated_is_unique(a.negated(), a);
}

/// `-0 = 0`.
pub proof fn lemma_negated_zero<S: Field>()
    ensures
        S::zero_value().negated() == S::zero_value(),
{
    S::law_plus_zero(S::zero_value());
    lemma_negated_is_unique(S::zero_value(), S::zero_value());
}

/// `(a + b) + (c + d) = (a + c) + (b + d)`.
pub proof fn lemma_medial<S: Field>(a: S, b: S, c: S, d: S)
    ensures
        a.plus(b).plus(c.plus(d)) == a.plus(c).plus(b.plus(d)),
{
    S::law_plus_associates(a, b, c.plus(d));
    S::law_plus_associates(b, c, d);
    S::law_plus_commutes(b, c);
    S::law_plus_associates(c, b, d);
    S::law_plus_associates(a, c, b.plus(d));
}

/// `a + (b + c) = b + (a + c)`.
pub proof fn lemma_swap_terms<S: Field>(a: S, b: S, c: S)
    ensures
        a.plus(b.plus(c)) == b.plus(a.plus(c)),
{
    S::law_plus_associates(a, b, c);
    S::law_plus_commutes(a, b);
    S::law_plus_associates(b, a, c);
}

/// A term and its negative at the front of a sum cancel.
pub proof fn lemma_cancels_front<S: Field>(a: S, c: S)
    ensures
        a.plus(a.negated().plus(c)) == c,
        a.negated().plus(a.plus(c)) == c,
{
    S::law_plus_associates(a, a.negated(), c);
    S::law_plus_associates(a.negated(), a, c);
    S::law_plus_negated(a);
    lemma_negated_plus(a);
    lemma_zero_plus(c);
}

/// `(a + b) - b = a`.
pub proof fn lemma_plus_minus<S: Field>(a: S, b: S)
    ensures
        a.plus(b).minus(b) == a,
        a.plus(b).plus(b.negated()) == a,
{
    S::law_minus(a.plus(b), b);
    S::law_plus_associates(a, b, b.negated());
    S::law_plus_negated(b);
    S::law_plus_zero(a);
}

/// `a - a = 0`.
pub proof fn lemma_minus_self<S: Field>(a: S)
    ensures
        a.minus(a) == S::zero_value(),
{
    S::law_minus(a, a);
    S::law_plus_negated(a);
}

/// Two sums of three terms add term by term.
pub proof fn lemma_sum3_plus<S: Field>(a1: S, a2: S, a3: S, b1: S, b2: S, b3: S)
    ensures
        a1.plus(b1).plus(a2.plus(b2)).plus(a3.plus(b3)) == a1.plus(a2).plus(a3).plus(
            b1.plus(b2).plus(b3),
        ),
{
    lemma_medial(a1, b1, a2, b2);
    lemma_medial(a1.plus(a2), b1.plus(b2), a3, b3);
}

/// A sum of nine terms, taken by rows or by columns.
pub proof fn lemma_sum9_transposes<S: Field>(
    a1: S,
    a2: S,
    a3: S,
    b1: S,
    b2: S,
    b3: S,
    c1: S,
    c2: S,
    c3: S,
)
    ensures
        a1.plus(b1).plus(c1).plus(a2.plus(b2).plus(c2)).plus(a3.plus(b3).plus(c3)) == a1.plus(
            a2,
        ).plus(a3).plus(b1.plus(b2).plus(b3)).plus(c1.plus(c2).plus(c3)),
{
    lemma_sum3_plus(a1.plus(b1), a2.plus(b2), a3.plus(b3), c1, c2, c3);
    lemma_sum3_plus(a1, a2, a3, b1, b2, b3);
}


/// The dot product is additive in its second argument.
pub proof fn lemma_dot3_plus<S: Field>(a: Vector3<S>, u: Vector3<S>, v: Vector3<S>)
    ensures
        a.dot_product(u.plus(v)) == a.dot_product(u).plus(a.dot_product(v)),
{
    S::law_distributes(a.x, u.x, v.x);
    S::law_distributes(a.y, u.y, v.y);
    S::law_distributes(a.z, u.z, v.z);
    lemma_sum3_plus(
        a.x.times(u.x),
        a.y.times(u.y),
        a.z.times(u.z),
        a.x.times(v.x),
        a.y.times(v.y),
        a.z.times(v.z),
    );
}

/// A factor on the second argument of a dot product can be taken out.
pub proof fn lemma_dot3_scaled<S: Field>(a: Vector3<S>, v: Vector3<S>, s: S)
    ensures
        a.dot_product(v.scaled(s)) == a.dot_product(v).times(s),
{
    S::law_times_associates(a.x, v.x, s);
    S::law_times_associates(a.y, v.y, s);
    S::law_times_associates(a.z, v.z, s);
    lemma_distributes_right(a.x.times(v.x), a.y.times(v.y), s);
    lemma_distributes_right(a.x.times(v.x).plus(a.y.times(v.y)), a.z.times(v.z), s);
}

/// The dot product with a negated vector is the negated dot product.
pub proof fn lemma_dot3_negated<S: Field>(a: Vector3<S>, v: Vector3<S>)
    ensures
        a.dot_product(v.negated()) == a.dot_product(v).negated(),
{
    lemma_times_negated(a.x, v.x);
    lemma_times_negated(a.y, v.y);
    lemma_times_negated(a.z, v.z);
    lemma_negated_sum(a.x.times(v.x), a.y.times(v.y));
    lemma_negated_sum(a.x.times(v.x).plus(a.y.times(v.y)), a.z.times(v.z));
}

/// The dot product is symmetric.
pub proof fn lemma_dot3_commutes<S: Field>(a: Vector3<S>, b: Vector3<S>)
    ensures
        a.dot_product(b) == b.dot_product(a),
{
    S::law_times_commutes(a.x, b.x);
    S::law_times_commutes(a.y, b.y);
    S::law_times_commutes(a.z, b.z);
}

/// A row vector times a matrix times a column vector, bracketed either way.
pub proof fn lemma_dot3_associates<S: Field>(a: Vector3<S>, b: Matrix3x3<S>, v: Vector3<S>)
    ensures
        (Vector3 {
            x: a.dot_product(b.col0()),
            y: a.dot_product(b.col1()),
            z: a.dot_product(b.col2()),
        }).dot_product(v) == a.dot_product(b.apply(v)),
{
    // Left: each column's dot product times a coordinate of v, term by term.
    lemma_distributes_right(a.x.times(b.c0r0), a.y.times(b.c0r1), v.x);
    lemma_distributes_right(a.x.times(b.c0r0).plus(a.y.times(b.c0r1)), a.z.times(b.c0r2), v.x);
    lemma_distributes_right(a.x.times(b.c1r0), a.y.times(b.c1r1), v.y);
    lemma_distributes_right(a.x.times(b.c1r0).plus(a.y.times(b.c1r1)), a.z.times(b.c1r2), v.y);
    lemma_distributes_right(a.x.times(b.c2r0), a.y.times(b.c2r1), v.z);
    lemma_distributes_right(a.x.times(b.c2r0).plus(a.y.times(b.c2r1)), a.z.times(b.c2r2), v.z);
    S::law_times_associates(a.x, b.c0r0, v.x);
    S::law_times_associates(a.y, b.c0r1, v.x);
    S::law_times_associates(a.z, b.c0r2, v.x);
    S::law_times_associates(a.x, b.c1r0, v.y);
    S::law_times_associates(a.y, b.c1r1, v.y);
    S::law_times_associates(a.z, b.c1r2, v.y);
    S::law_times_associates(a.x, b.c2r0, v.z);
    S::law_times_associates(a.y, b.c2r1, v.z);
    S::law_times_associates(a.z, b.c2r2, v.z);
    // Right: each coordinate of a times a row's dot product, term by term.
    S::law_distributes(a.x, b.c0r0.times(v.x), b.c1r0.times(v.y));
    S::law_distributes(a.x, b.c0r0.times(v.x).plus(b.c1r0.times(v.y)), b.c2r0.times(v.z));
    S::law_distributes(a.y, b.c0r1.times(v.x), b.c1r1.times(v.y));
    S::law_distributes(a.y, b.c0r1.times(v.x).plus(b.c1r1.times(v.y)), b.c2r1.times(v.z));
    S::law_distributes(a.z, b.c0r2.times(v.x), b.c1r2.times(v.y));
    S::law_distributes(a.z, b.c0r2.times(v.x).plus(b.c1r2.times(v.y)), b.c2r2.times(v.z));
    lemma_sum9_transposes(
        a.x.times(b.c0r0.times(v.x)),
        a.x.times(b.c1r0.times(v.y)),
        a.x.times(b.c2r0.times(v.z)),
        a.y.times(b.c0r1.times(v.x)),
        a.y.times(b.c1r1.times(v.y)),
        a.y.times(b.c2r1.times(v.z)),
        a.z.times(b.c0r2.times(v.x)),
        a.z.times(b.c1r2.times(v.y)),
        a.z.times(b.c2r2.times(v.z)),
    );
}

/// Vector addition is commutative.
pub proof fn lemma_vector3_plus_commutes<S: Field>(u: Vector3<S>, v: Vector3<S>)
    ensures
        u.plus(v) == v.plus(u),
{
    S::law_plus_commutes(u.x, v.x);
    S::law_plus_commutes(u.y, v.y);
    S::law_plus_commutes(u.z, v.z);
}

/// Vector addition is associative.
pub proof fn lemma_vector3_plus_associates<S: Field>(
    u: Vector3<S>,
    v: Vector3<S>,
    w: Vector3<S>,
)
    ensures
        u.plus(v).plus(w) == u.plus(v.plus(w)),
{
    S::law_plus_associates(u.x, v.x, w.x);
    S::law_plus_associates(u.y, v.y, w.y);
    S::law_plus_associates(u.z, v.z, w.z);
}

/// Adding a vector and then its negative changes nothing.
pub proof fn lemma_vector3_plus_negated<S: Field>(u: Vector3<S>, v: Vector3<S>)
    ensures
        u.plus(v).plus(v.negated()) == u,
{
    lemma_plus_minus(u.x, v.x);
    lemma_plus_minus(u.y, v.y);
    lemma_plus_minus(u.z, v.z);
}

/// Scaling distributes over vector addition.
pub proof fn lemma_vector3_scaled_plus<S: Field>(u: Vector3<S>, v: Vector3<S>, s: S)
    ensures
        u.plus(v).scaled(s) == u.scaled(s).plus(v.scaled(s)),
{
    lemma_distributes_right(u.x, v.x, s);
    lemma_distributes_right(u.y, v.y, s);
    lemma_distributes_right(u.z, v.z, s);
}

/// Scaling twice is scaling by the product.
pub proof fn lemma_vector3_scaled_twice<S: Field>(v: Vector3<S>, s: S, t: S)
    ensures
        v.scaled(s).scaled(t) == v.scaled(s.times(t)),
{
    S::law_times_associates(v.x, s, t);
    S::law_times_associates(v.y, s, t);
    S::law_times_associates(v.z, s, t);
}

/// Scaling by one changes nothing.
pub proof fn lemma_vector3_scaled_one<S: Field>(v: Vector3<S>)
    ensures
        v.scaled(S::one_value()) == v,
{
    S::law_times_one(v.x);
    S::law_times_one(v.y);
    S::law_times_one(v.z);
}

/// A matrix acts additively.
pub proof fn lemma_apply3_plus<S: Field>(m: Matrix3x3<S>, u: Vector3<S>, v: Vector3<S>)
    ensures
        m.apply(u.plus(v)) == m.apply(u).plus(m.apply(v)),
{
    lemma_dot3_plus(m.row0(), u, v);
    lemma_dot3_plus(m.row1(), u, v);
    lemma_dot3_plus(m.row2(), u, v);
}

/// A matrix commutes with scaling.
pub proof fn lemma_apply3_scaled<S: Field>(m: Matrix3x3<S>, v: Vector3<S>, s: S)
    ensures
        m.apply(v.scaled(s)) == m.apply(v).scaled(s),
{
    lemma_dot3_scaled(m.row0(), v, s);
    lemma_dot3_scaled(m.row1(), v, s);
    lemma_dot3_scaled(m.row2(), v, s);
}

/// A matrix commutes with negation.
pub proof fn lemma_apply3_negated<S: Field>(m: Matrix3x3<S>, v: Vector3<S>)
    ensures
        m.apply(v.negated()) == m.apply(v).negated(),
{
    lemma_dot3_negated(m.row0(), v);
    lemma_dot3_negated(m.row1(), v);
    lemma_dot3_negated(m.row2(), v);
}

/// Applying a product of matrices is applying them in turn.
pub proof fn lemma_apply3_times<S: Field>(a: Matrix3x3<S>, b: Matrix3x3<S>, v: Vector3<S>)
    ensures
        a.times(b).apply(v) == a.apply(b.apply(v)),
{
    lemma_dot3_associates(a.row0(), b, v);
    lemma_dot3_associates(a.row1(), b, v);
    lemma_dot3_associates(a.row2(), b, v);
}

/// The matrix product is associative.
pub proof fn lemma_times3_associates<S: Field>(a: Matrix3x3<S>, b: Matrix3x3<S>, c: Matrix3x3<S>)
    ensures
        a.times(b).times(c) == a.times(b.times(c)),
{
    lemma_apply3_times(a, b, c.col0());
    lemma_apply3_times(a, b, c.col1());
    lemma_apply3_times(a, b, c.col2());
}

/// The identity matrix fixes every vector.
pub proof fn lemma_apply3_identity<S: Field>(v: Vector3<S>)
    ensures
        Matrix3x3::<S>::identity_value().apply(v) == v,
{
    lemma_one_times(v.x);
    lemma_one_times(v.y);
    lemma_one_times(v.z);
    lemma_zero_times(v.x);
    lemma_zero_times(v.y);
    lemma_zero_times(v.z);
    S::law_plus_zero(v.x);
    S::law_plus_zero(S::zero_value());
    lemma_zero_plus(v.y);
    S::law_plus_zero(v.y);
    lemma_zero_plus(v.z);
}

/// The identity matrix is neutral for the matrix product.
pub proof fn lemma_times3_identity<S: Field>(m: Matrix3x3<S>)
    ensures
        Matrix3x3::<S>::identity_value().times(m) == m,
        m.times(Matrix3x3::<S>::identity_value()) == m,
{
    lemma_apply3_identity(m.col0());
    lemma_apply3_identity(m.col1());
    lemma_apply3_identity(m.col2());
    let z = S::zero_value();
    S::law_times_one(m.c0r0);
    S::law_times_one(m.c0r1);
    S::law_times_one(m.c0r2);
    S::law_times_one(m.c1r0);
    S::law_times_one(m.c1r1);
    S::law_times_one(m.c1r2);
    S::law_times_one(m.c2r0);
    S::law_times_one(m.c2r1);
    S::law_times_one(m.c2r2);
    lemma_times_zero(m.c0r0);
    lemma_times_zero(m.c0r1);
    lemma_times_zero(m.c0r2);
    lemma_times_zero(m.c1r0);
    lemma_times_zero(m.c1r1);
    lemma_times_zero(m.c1r2);
    lemma_times_zero(m.c2r0);
    lemma_times_zero(m.c2r1);
    lemma_times_zero(m.c2r2);
    S::law_plus_zero(z);
    S::law_plus_zero(m.c0r0);
    S::law_plus_zero(m.c0r1);
    S::law_plus_zero(m.c0r2);
    S::law_plus_zero(m.c1r0);
    S::law_plus_zero(m.c1r1);
    S::law_plus_zero(m.c1r2);
    lemma_zero_plus(m.c1r0);
    lemma_zero_plus(m.c1r1);
    lemma_zero_plus(m.c1r2);
    lemma_zero_plus(m.c2r0);
    lemma_zero_plus(m.c2r1);
    lemma_zero_plus(m.c2r2);
}


/// The dot product is additive in its second argument.
pub proof fn lemma_dot2_plus<S: Field>(a: Vector2<S>, u: Vector2<S>, v: Vector2<S>)
    ensures
        a.dot_product(u.plus(v)) == a.dot_product(u).plus(a.dot_product(v)),
{
    S::law_distributes(a.x, u.x, v.x);
    S::law_distributes(a.y, u.y, v.y);
    lemma_medial(a.x.times(u.x), a.x.times(v.x), a.y.times(u.y), a.y.times(v.y));
}

/// A factor on the second argument of a dot product can be taken out.
pub proof fn lemma_dot2_scaled<S: Field>(a: Vector2<S>, v: Vector2<S>, s: S)
    ensures
        a.dot_product(v.scaled(s)) == a.dot_product(v).times(s),
{
    S::law_times_associates(a.x, v.x, s);
    S::law_times_associates(a.y, v.y, s);
    lemma_distributes_right(a.x.times(v.x), a.y.times(v.y), s);
}

/// The dot product with a negated vector is the negated dot product.
pub proof fn lemma_dot2_negated<S: Field>(a: Vector2<S>, v: Vector2<S>)
    ensures
        a.dot_product(v.negated()) == a.dot_product(v).negated(),
{
    lemma_times_negated(a.x, v.x);
    lemma_times_negated(a.y, v.y);
    lemma_negated_sum(a.x.times(v.x), a.y.times(v.y));
}

/// The dot product is symmetric.
pub proof fn lemma_dot2_commutes<S: Field>(a: Vector2<S>, b: Vector2<S>)
    ensures
        a.dot_product(b) == b.dot_product(a),
{
    S::law_times_commutes(a.x, b.x);
    S::law_times_commutes(a.y, b.y);
}

/// A row vector times a matrix times a column vector, bracketed either way.
pub proof fn lemma_dot2_associates<S: Field>(a: Vector2<S>, b: Matrix2x2<S>, v: Vector2<S>)
    ensures
        (Vector2 { x: a.dot_product(b.col0()), y: a.dot_product(b.col1()) }).dot_product(v)
            == a.dot_product(b.apply(v)),
{
    lemma_distributes_right(a.x.times(b.c0r0), a.y.times(b.c0r1), v.x);
    lemma_distributes_right(a.x.times(b.c1r0), a.y.times(b.c1r1), v.y);
    S::law_times_associates(a.x, b.c0r0, v.x);
    S::law_times_associates(a.y, b.c0r1, v.x);
    S::law_times_associates(a.x, b.c1r0, v.y);
    S::law_times_associates(a.y, b.c1r1, v.y);
    S::law_distributes(a.x, b.c0r0.times(v.x), b.c1r0.times(v.y));
    S::law_distributes(a.y, b.c0r1.times(v.x), b.c1r1.times(v.y));
    lemma_medial(
        a.x.times(b.c0r0.times(v.x)),
        a.y.times(b.c0r1.times(v.x)),
        a.x.times(b.c1r0.times(v.y)),
        a.y.times(b.c1r1.times(v.y)),
    );
}

/// Vector addition is commutative.
pub proof fn lemma_vector2_plus_commutes<S: Field>(u: Vector2<S>, v: Vector2<S>)
    ensures
        u.plus(v) == v.plus(u),
{
    S::law_plus_commutes(u.x, v.x);
    S::law_plus_commutes(u.y, v.y);
}

/// Vector addition is associative.
pub proof fn lemma_vector2_plus_associates<S: Field>(
    u: Vector2<S>,
    v: Vector2<S>,
    w: Vector2<S>,
)
    ensures
        u.plus(v).plus(w) == u.plus(v.plus(w)),
{
    S::law_plus_associates(u.x, v.x, w.x);
    S::law_plus_associates(u.y, v.y, w.y);
}

/// Adding a vector and then its negative changes nothing.
pub proof fn lemma_vector2_plus_negated<S: Field>(u: Vector2<S>, v: Vector2<S>)
    ensures
        u.plus(v).plus(v.negated()) == u,
{
    lemma_plus_minus(u.x, v.x);
    lemma_plus_minus(u.y, v.y);
}

/// Scaling distributes over vector addition.
pub proof fn lemma_vector2_scaled_plus<S: Field>(u: Vector2<S>, v: Vector2<S>, s: S)
    ensures
        u.plus(v).scaled(s) == u.scaled(s).plus(v.scaled(s)),
{
    lemma_distributes_right(u.x, v.x, s);
    lemma_distributes_right(u.y, v.y, s);
}

/// Scaling twice is scaling by the product.
pub proof fn lemma_vector2_scaled_twice<S: Field>(v: Vector2<S>, s: S, t: S)
    ensures
        v.scaled(s).scaled(t) == v.scaled(s.times(t)),
{
    S::law_times_associates(v.x, s, t);
    S::law_times_associates(v.y, s, t);
}

/// Scaling by one changes nothing.
pub proof fn lemma_vector2_scaled_one<S: Field>(v: Vector2<S>)
    ensures
        v.scaled(S::one_value()) == v,
{
    S::law_times_one(v.x);
    S::law_times_one(v.y);
}

/// A matrix acts additively.
pub proof fn lemma_apply2_plus<S: Field>(m: Matrix2x2<S>, u: Vector2<S>, v: Vector2<S>)
    ensures
        m.apply(u.plus(v)) == m.apply(u).plus(m.apply(v)),
{
    lemma_dot2_plus(m.row0(), u, v);
    lemma_dot2_plus(m.row1(), u, v);
}

/// A matrix commutes with scaling.
pub proof fn lemma_apply2_scaled<S: Field>(m: Matrix2x2<S>, v: Vector2<S>, s: S)
    ensures
        m.apply(v.scaled(s)) == m.apply(v).scaled(s),
{
    lemma_dot2_scaled(m.row0(), v, s);
    lemma_dot2_scaled(m.row1(), v, s);
}

/// A matrix commutes with negation.
pub proof fn lemma_apply2_negated<S: Field>(m: Matrix2x2<S>, v: Vector2<S>)
    ensures
        m.apply(v.negated()) == m.apply(v).negated(),
{
    lemma_dot2_negated(m.row0(), v);
    lemma_dot2_negated(m.row1(), v);
}

/// Applying a product of matrices is applying them in turn.
pub proof fn lemma_apply2_times<S: Field>(a: Matrix2x2<S>, b: Matrix2x2<S>, v: Vector2<S>)
    ensures
        a.times(b).apply(v) == a.apply(b.apply(v)),
{
    lemma_dot2_associates(a.row0(), b, v);
    lemma_dot2_associates(a.row1(), b, v);
}

/// The matrix product is associative.
pub proof fn lemma_times2_associates<S: Field>(a: Matrix2x2<S>, b: Matrix2x2<S>, c: Matrix2x2<S>)
    ensures
        a.times(b).times(c) == a.times(b.times(c)),
{
    lemma_apply2_times(a, b, c.col0());
    lemma_apply2_times(a, b, c.col1());
}

/// The identity matrix fixes every vector.
pub proof fn lemma_apply2_identity<S: Field>(v: Vector2<S>)
    ensures
        Matrix2x2::<S>::identity_value().apply(v) == v,
{
    lemma_one_times(v.x);
    lemma_one_times(v.y);
    lemma_zero_times(v.x);
    lemma_zero_times(v.y);
    S::law_plus_zero(v.x);
    lemma_zero_plus(v.y);
}

/// The identity matrix is neutral for the matrix product.
pub proof fn lemma_times2_identity<S: Field>(m: Matrix2x2<S>)
    ensures
        Matrix2x2::<S>::identity_value().times(m) == m,
        m.times(Matrix2x2::<S>::identity_value()) == m,
{
    lemma_apply2_identity(m.col0());
    lemma_apply2_identity(m.col1());
    S::law_times_one(m.c0r0);
    S::law_times_one(m.c0r1);
    S::law_times_one(m.c1r0);
    S::law_times_one(m.c1r1);
    lemma_times_zero(m.c0r0);
    lemma_times_zero(m.c0r1);
    lemma_times_zero(m.c1r0);
    lemma_times_zero(m.c1r1);
    S::law_plus_zero(m.c0r0);
    S::law_plus_zero(m.c0r1);
    lemma_zero_plus(m.c1r0);
    lemma_zero_plus(m.c1r1);
}


/// Negating and scaling a vector commute.
pub proof fn lemma_vector2_negated_scaled<S: Field>(v: Vector2<S>, s: S)
    ensures
        v.negated().scaled(s) == v.scaled(s).negated(),
{
    lemma_negated_times(v.x, s);
    lemma_negated_times(v.y, s);
}

/// Negating and scaling a vector commute.
pub proof fn lemma_vector3_negated_scaled<S: Field>(v: Vector3<S>, s: S)
    ensures
        v.negated().scaled(s) == v.scaled(s).negated(),
{
    lemma_negated_times(v.x, s);
    lemma_negated_times(v.y, s);
    lemma_negated_times(v.z, s);
}

/// The transpose of a product is the product of the transposes in reverse.
pub proof fn lemma_transposed2_times<S: Field>(a: Matrix2x2<S>, b: Matrix2x2<S>)
    ensures
        a.times(b).transposed() == b.transposed().times(a.transposed()),
{
    lemma_dot2_commutes(a.row0(), b.col0());
    lemma_dot2_commutes(a.row0(), b.col1());
    lemma_dot2_commutes(a.row1(), b.col0());
    lemma_dot2_commutes(a.row1(), b.col1());
}

/// The transpose of a product is the product of the transposes in reverse.
pub proof fn lemma_transposed3_times<S: Field>(a: Matrix3x3<S>, b: Matrix3x3<S>)
    ensures
        a.times(b).transposed() == b.transposed().times(a.transposed()),
{
    lemma_dot3_commutes(a.row0(), b.col0());
    lemma_dot3_commutes(a.row0(), b.col1());
    lemma_dot3_commutes(a.row0(), b.col2());
    lemma_dot3_commutes(a.row1(), b.col0());
    lemma_dot3_commutes(a.row1(), b.col1());
    lemma_dot3_commutes(a.row1(), b.col2());
    lemma_dot3_commutes(a.row2(), b.col0());
    lemma_dot3_commutes(a.row2(), b.col1());
    lemma_dot3_commutes(a.row2(), b.col2());
}

/// A factor other than zero can be cancelled.
pub proof fn lemma_cancel_factor<S: Field>(d: S, x: S, y: S)
    requires
        !d.vanishes(),
        d.times(x) == d.times(y),
    ensures
        x == y,
{
    let k = S::one_value().over(d);
    S::law_over(S::one_value(), d);
    S::law_times_commutes(d, k);
    S::law_times_associates(k, d, x);
    S::law_times_associates(k, d, y);
    lemma_one_times(x);
    lemma_one_times(y);
}

/// Two sums of four terms add term by term.
pub proof fn lemma_sum4_plus<S: Field>(a: (S, S, S, S), b: (S, S, S, S))
    ensures
        a.0.plus(b.0).plus(a.1.plus(b.1)).plus(a.2.plus(b.2)).plus(a.3.plus(b.3)) == a.0.plus(
            a.1,
        ).plus(a.2).plus(a.3).plus(b.0.plus(b.1).plus(b.2).plus(b.3)),
{
    lemma_sum3_plus(a.0, a.1, a.2, b.0, b.1, b.2);
    lemma_medial(a.0.plus(a.1).plus(a.2), b.0.plus(b.1).plus(b.2), a.3, b.3);
}

/// A sum of sixteen terms, taken by rows or by columns.
pub proof fn lemma_sum16_transposes<S: Field>(
    a: (S, S, S, S),
    b: (S, S, S, S),
    c: (S, S, S, S),
    d: (S, S, S, S),
)
    ensures
        a.0.plus(b.0).plus(c.0).plus(d.0).plus(a.1.plus(b.1).plus(c.1).plus(d.1)).plus(
            a.2.plus(b.2).plus(c.2).plus(d.2),
        ).plus(a.3.plus(b.3).plus(c.3).plus(d.3)) == a.0.plus(a.1).plus(a.2).plus(a.3).plus(
            b.0.plus(b.1).plus(b.2).plus(b.3),
        ).plus(c.0.plus(c.1).plus(c.2).plus(c.3)).plus(d.0.plus(d.1).plus(d.2).plus(d.3)),
{
    lemma_sum4_plus(a, b);
    let ab = (a.0.plus(b.0), a.1.plus(b.1), a.2.plus(b.2), a.3.plus(b.3));
    lemma_sum4_plus(ab, c);
    let abc = (ab.0.plus(c.0), ab.1.plus(c.1), ab.2.plus(c.2), ab.3.plus(c.3));
    lemma_sum4_plus(abc, d);
}

/// A row vector times a matrix times a column vector, bracketed either way.
pub proof fn lemma_dot4_associates<S: Field>(a: Vector4<S>, b: Matrix4x4<S>, v: Vector4<S>)
    ensures
        (Vector4 {
            x: a.dot_product(b.col0()),
            y: a.dot_product(b.col1()),
            z: a.dot_product(b.col2()),
            w: a.dot_product(b.col3()),
        }).dot_product(v) == a.dot_product(b.apply(v)),
{
    lemma_distributes_right(a.x.times(b.c0r0), a.y.times(b.c0r1), v.x);
    lemma_distributes_right(a.x.times(b.c0r0).plus(a.y.times(b.c0r1)), a.z.times(b.c0r2), v.x);
    lemma_distributes_right(
        a.x.times(b.c0r0).plus(a.y.times(b.c0r1)).plus(a.z.times(b.c0r2)),
        a.w.times(b.c0r3),
        v.x,
    );
    S::law_times_associates(a.x, b.c0r0, v.x);
    S::law_times_associates(a.y, b.c0r1, v.x);
    S::law_times_associates(a.z, b.c0r2, v.x);
    S::law_times_associates(a.w, b.c0r3, v.x);
    lemma_distributes_right(a.x.times(b.c1r0), a.y.times(b.c1r1), v.y);
    lemma_distributes_right(a.x.times(b.c1r0).plus(a.y.times(b.c1r1)), a.z.times(b.c1r2), v.y);
    lemma_distributes_right(
        a.x.times(b.c1r0).plus(a.y.times(b.c1r1)).plus(a.z.times(b.c1r2)),
        a.w.times(b.c1r3),
        v.y,
    );
    S::law_times_associates(a.x, b.c1r0, v.y);
    S::law_times_associates(a.y, b.c1r1, v.y);
    S::law_times_associates(a.z, b.c1r2, v.y);
    S::law_times_associates(a.w, b.c1r3, v.y);
    lemma_distributes_right(a.x.times(b.c2r0), a.y.times(b.c2r1), v.z);
    lemma_distributes_right(a.x.times(b.c2r0).plus(a.y.times(b.c2r1)), a.z.times(b.c2r2), v.z);
    lemma_distributes_right(
        a.x.times(b.c2r0).plus(a.y.times(b.c2r1)).plus(a.z.times(b.c2r2)),
        a.w.times(b.c2r3),
        v.z,
    );
    S::law_times_associates(a.x, b.c2r0, v.z);
    S::law_times_associates(a.y, b.c2r1, v.z);
    S::law_times_associates(a.z, b.c2r2, v.z);
    S::law_times_associates(a.w, b.c2r3, v.z);
    lemma_distributes_right(a.x.times(b.c3r0), a.y.times(b.c3r1), v.w);
    lemma_distributes_right(a.x.times(b.c3r0).plus(a.y.times(b.c3r1)), a.z.times(b.c3r2), v.w);
    lemma_distributes_right(
        a.x.times(b.c3r0).plus(a.y.times(b.c3r1)).plus(a.z.times(b.c3r2)),
        a.w.times(b.c3r3),
        v.w,
    );
    S::law_times_associates(a.x, b.c3r0, v.w);
    S::law_times_associates(a.y, b.c3r1, v.w);
    S::law_times_associates(a.z, b.c3r2, v.w);
    S::law_times_associates(a.w, b.c3r3, v.w);
    S::law_distributes(a.x, b.c0r0.times(v.x), b.c1r0.times(v.y));
    S::law_distributes(a.x, b.c0r0.times(v.x).plus(b.c1r0.times(v.y)), b.c2r0.times(v.z));
    S::law_distributes(a.x, b.c0r0.times(v.x).plus(b.c1r0.times(v.y)).plus(b.c2r0.times(v.z)), b.c3r0.times(v.w));
    S::law_distributes(a.y, b.c0r1.times(v.x), b.c1r1.times(v.y));
    S::law_distributes(a.y, b.c0r1.times(v.x).plus(b.c1r1.times(v.y)), b.c2r1.times(v.z));
    S::law_distributes(a.y, b.c0r1.times(v.x).plus(b.c1r1.times(v.y)).plus(b.c2r1.times(v.z)), b.c3r1.times(v.w));
    S::law_distributes(a.z, b.c0r2.times(v.x), b.c1r2.times(v.y));
    S::law_distributes(a.z, b.c0r2.times(v.x).plus(b.c1r2.times(v.y)), b.c2r2.times(v.z));
    S::law_distributes(a.z, b.c0r2.times(v.x).plus(b.c1r2.times(v.y)).plus(b.c2r2.times(v.z)), b.c3r2.times(v.w));
    S::law_distributes(a.w, b.c0r3.times(v.x), b.c1r3.times(v.y));
    S::law_distributes(a.w, b.c0r3.times(v.x).plus(b.c1r3.times(v.y)), b.c2r3.times(v.z));
    S::law_distributes(a.w, b.c0r3.times(v.x).plus(b.c1r3.times(v.y)).plus(b.c2r3.times(v.z)), b.c3r3.times(v.w));
    lemma_sum16_transposes(
        (a.x.times(b.c0r0.times(v.x)), a.x.times(b.c1r0.times(v.y)), a.x.times(b.c2r0.times(v.z)), a.x.times(b.c3r0.times(v.w))),
        (a.y.times(b.c0r1.times(v.x)), a.y.times(b.c1r1.times(v.y)), a.y.times(b.c2r1.times(v.z)), a.y.times(b.c3r1.times(v.w))),
        (a.z.times(b.c0r2.times(v.x)), a.z.times(b.c1r2.times(v.y)), a.z.times(b.c2r2.times(v.z)), a.z.times(b.c3r2.times(v.w))),
        (a.w.times(b.c0r3.times(v.x)), a.w.times(b.c1r3.times(v.y)), a.w.times(b.c2r3.times(v.z)), a.w.times(b.c3r3.times(v.w))),
    );
}

/// Applying a product of matrices is applying them in turn.
pub proof fn lemma_apply4_times<S: Field>(a: Matrix4x4<S>, b: Matrix4x4<S>, v: Vector4<S>)
    ensures
        a.times(b).apply(v) == a.apply(b.apply(v)),
{
    lemma_dot4_associates(a.row0(), b, v);
    lemma_dot4_associates(a.row1(), b, v);
    lemma_dot4_associates(a.row2(), b, v);
    lemma_dot4_associates(a.row3(), b, v);
}

/// The matrix product is associative.
pub proof fn lemma_times4_associates<S: Field>(a: Matrix4x4<S>, b: Matrix4x4<S>, c: Matrix4x4<S>)
    ensures
        a.times(b).times(c) == a.times(b.times(c)),
{
    lemma_apply4_times(a, b, c.col0());
    lemma_apply4_times(a, b, c.col1());
    lemma_apply4_times(a, b, c.col2());
    lemma_apply4_times(a, b, c.col3());
}


/// A product of two numbers other than zero is not zero.
pub proof fn lemma_product_is_not_zero<S: Field>(a: S, b: S)
    requires
        !a.vanishes(),
        !b.vanishes(),
    ensures
        !a.times(b).vanishes(),
{
    S::law_vanishes(a.times(b));
    S::law_vanishes(b);
    if a.times(b) == S::zero_value() {
        lemma_times_zero(a);
        lemma_cancel_factor(a, b, S::zero_value());
    }
}

/// The reciprocal of a number other than zero is not zero, and neither is
/// one.
pub proof fn lemma_reciprocal_is_not_zero<S: Field>(a: S)
    requires
        !a.vanishes(),
    ensures
        !S::one_value().over(a).vanishes(),
        !S::one_value().vanishes(),
{
    let k = S::one_value().over(a);
    S::law_over(S::one_value(), a);
    S::law_vanishes(k);
    S::law_vanishes(S::one_value());
    S::law_nontrivial();
    lemma_times_zero(a);
}

} // verus!
