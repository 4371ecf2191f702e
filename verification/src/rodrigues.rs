//! Rodrigues' formula gives a rotation.
//!
//! For an axis of length one and a cosine and sine whose squares sum to one,
//! the columns of the matrix are orthonormal and its determinant is one. Each
//! proof brings the two sides of a polynomial identity to the same sum of
//! monomials, one field law at a time.

use crate::algebra::{
    lemma_cancels_front, lemma_distributes_right, lemma_dot3_commutes, lemma_minus_self,
    lemma_negated_plus, lemma_negated_sum, lemma_negated_times, lemma_negated_twice,
    lemma_one_times, lemma_swap_terms, lemma_times_negated, lemma_times_zero, lemma_zero_plus,
};
use crate::angle::Radians;
use crate::determinant::{lemma_sum3_rotates, lemma_swap_factors};
use crate::rotation::Rotation3;
use crate::scalar::{Field, ScalarFloat};
use crate::unit::Unit;
use crate::vector::Vector3;
use vstd::prelude::*;

verus! {

/// The first column of the matrix of Rodrigues' formula has length one, for a
/// unit axis and a cosine and sine whose squares sum to one.
proof fn lemma_rodrigues_first_column_is_unit<S: Field>(axis: Vector3<S>, cos: S, sin: S)
    requires
        axis.dot_product(axis) == S::one_value(),
        cos.times(cos).plus(sin.times(sin)) == S::one_value(),
    ensures
        ({
            let m = Rotation3::rodrigues(axis, cos, sin).matrix;
            m.col0().dot_product(m.col0()) == S::one_value()
        }),
{
    let (x, y, z, c, s) = (axis.x, axis.y, axis.z, cos, sin);
    let t = S::one_value().minus(c);
    // c + t = 1
    S::law_minus(S::one_value(), c);
    lemma_swap_terms(c, S::one_value(), c.negated());
    S::law_plus_negated(c);
    S::law_plus_zero(S::one_value());
    S::law_times_associates(t, x, x);
    S::law_plus_commutes(t.times(x.times(x)), c);
    let t0 = c.plus(t.times(x.times(x)));
    lemma_distributes_right(c, t.times(x.times(x)), t0);
    S::law_distributes(c, c, t.times(x.times(x)));
    S::law_distributes(t.times(x.times(x)), c, t.times(x.times(x)));
    S::law_times_associates(t, x.times(x), c);
    S::law_times_associates(x, x, c);
    S::law_times_commutes(x, c);
    lemma_swap_factors(x, c, x);
    lemma_swap_factors(t, c, x.times(x));
    S::law_times_associates(t, x.times(x), t.times(x.times(x)));
    S::law_times_associates(x, x, t.times(x.times(x)));
    lemma_swap_factors(x, t, x.times(x));
    lemma_swap_factors(x, t, x.times(x.times(x)));
    let t1 = c.times(t.times(x.times(x)));
    let t2 = x.times(x.times(x.times(x)));
    let t3 = t1.plus(t.times(t.times(t2)));
    S::law_plus_associates(c.times(c), t1, t3);
    S::law_times_associates(t, x, y);
    S::law_plus_commutes(t.times(x.times(y)), s.times(z));
    let t4 = s.times(z).plus(t.times(x.times(y)));
    lemma_distributes_right(s.times(z), t.times(x.times(y)), t4);
    S::law_distributes(s.times(z), s.times(z), t.times(x.times(y)));
    S::law_times_associates(s, z, s.times(z));
    lemma_swap_factors(z, s, z);
    S::law_times_associates(s, z, t.times(x.times(y)));
    lemma_swap_factors(z, t, x.times(y));
    lemma_swap_factors(z, x, y);
    S::law_times_commutes(z, y);
    S::law_distributes(t.times(x.times(y)), s.times(z), t.times(x.times(y)));
    S::law_times_associates(t, x.times(y), s.times(z));
    S::law_times_associates(x, y, s.times(z));
    lemma_swap_factors(y, s, z);
    lemma_swap_factors(x, s, y.times(z));
    lemma_swap_factors(t, s, x.times(y.times(z)));
    S::law_times_associates(t, x.times(y), t.times(x.times(y)));
    S::law_times_associates(x, y, t.times(x.times(y)));
    lemma_swap_factors(y, t, x.times(y));
    lemma_swap_factors(y, x, y);
    lemma_swap_factors(x, t, x.times(y.times(y)));
    let t5 = s.times(s.times(z.times(z)));
    let t6 = t.times(x.times(y.times(z)));
    let t7 = x.times(x.times(y.times(y)));
    let t8 = s.times(t6).plus(t.times(t.times(t7)));
    S::law_plus_associates(t5, s.times(t6), t8);
    let t9 = t5.plus(s.times(t6).plus(t8));
    S::law_plus_associates(c.times(c), t1.plus(t3), t9);
    S::law_plus_associates(t1, t3, t9);
    S::law_plus_associates(t1, t.times(t.times(t2)), t9);
    lemma_swap_terms(t.times(t.times(t2)), t5, s.times(t6).plus(t8));
    lemma_swap_terms(t.times(t.times(t2)), s.times(t6), t8);
    lemma_swap_terms(t.times(t.times(t2)), s.times(t6), t.times(t.times(t7)));
    S::law_minus(t.times(x).times(z), s.times(y));
    S::law_times_associates(t, x, z);
    S::law_plus_commutes(t.times(x.times(z)), s.times(y).negated());
    let t10 = s.times(y).negated().plus(t.times(x.times(z)));
    lemma_distributes_right(s.times(y).negated(), t.times(x.times(z)), t10);
    S::law_distributes(s.times(y).negated(), s.times(y).negated(), t.times(x.times(z)));
    lemma_negated_times(s.times(y), s.times(y).negated());
    lemma_times_negated(s.times(y), s.times(y));
    let t11 = s.times(y).times(s.times(y));
    lemma_negated_twice(t11);
    S::law_times_associates(s, y, s.times(y));
    lemma_swap_factors(y, s, y);
    lemma_negated_times(s.times(y), t.times(x.times(z)));
    S::law_times_associates(s, y, t.times(x.times(z)));
    lemma_swap_factors(y, t, x.times(z));
    lemma_swap_factors(y, x, z);
    S::law_distributes(t.times(x.times(z)), s.times(y).negated(), t.times(x.times(z)));
    lemma_times_negated(t.times(x.times(z)), s.times(y));
    S::law_times_associates(t, x.times(z), s.times(y));
    S::law_times_associates(x, z, s.times(y));
    lemma_swap_factors(z, s, y);
    S::law_times_commutes(z, y);
    lemma_swap_factors(x, s, y.times(z));
    lemma_swap_factors(t, s, x.times(y.times(z)));
    S::law_times_associates(t, x.times(z), t.times(x.times(z)));
    S::law_times_associates(x, z, t.times(x.times(z)));
    lemma_swap_factors(z, t, x.times(z));
    lemma_swap_factors(z, x, z);
    lemma_swap_factors(x, t, x.times(z.times(z)));
    let t12 = s.times(s.times(y.times(y)));
    let t13 = x.times(x.times(z.times(z)));
    let t14 = s.times(t6).negated().plus(t.times(t.times(t13)));
    S::law_plus_associates(t12, s.times(t6).negated(), t14);
    let t15 = t.times(t.times(t2)).plus(t.times(t.times(t7)));
    let t16 = s.times(t6).plus(s.times(t6).plus(t15));
    let t17 = t1.plus(t1.plus(t5.plus(t16)));
    let t18 = s.times(t6).negated().plus(t14);
    S::law_plus_associates(c.times(c), t17, t12.plus(t18));
    S::law_plus_associates(t1, t1.plus(t5.plus(t16)), t12.plus(t18));
    S::law_plus_associates(t1, t5.plus(t16), t12.plus(t18));
    S::law_plus_associates(t5, t16, t12.plus(t18));
    S::law_plus_associates(s.times(t6), s.times(t6).plus(t15), t12.plus(t18));
    S::law_plus_associates(s.times(t6), t15, t12.plus(t18));
    S::law_plus_associates(t.times(t.times(t2)), t.times(t.times(t7)), t12.plus(t18));
    lemma_swap_terms(t.times(t.times(t7)), t12, t18);
    lemma_swap_terms(t.times(t.times(t7)), s.times(t6).negated(), t14);
    lemma_swap_terms(t.times(t.times(t7)), s.times(t6).negated(), t.times(t.times(t13)));
    let t19 = t.times(t.times(t7)).plus(t.times(t.times(t13)));
    let t20 = s.times(t6).negated().plus(t19);
    let t21 = s.times(t6).negated().plus(t20);
    lemma_swap_terms(t.times(t.times(t2)), t12, t21);
    lemma_swap_terms(t.times(t.times(t2)), s.times(t6).negated(), t20);
    lemma_swap_terms(t.times(t.times(t2)), s.times(t6).negated(), t19);
    let t22 = t.times(t.times(t2)).plus(t19);
    let t23 = s.times(t6).negated().plus(t22);
    let t24 = s.times(t6).negated().plus(t23);
    lemma_swap_terms(s.times(t6), t12, t24);
    lemma_cancels_front(s.times(t6), t23);
    lemma_swap_terms(s.times(t6), t12, t23);
    lemma_cancels_front(s.times(t6), t22);
    lemma_swap_terms(t5, t12, t22);
    S::law_times_associates(t, t, x);
    S::law_times_associates(t, t.times(x), x);
    S::law_times_associates(t, x, x);
    let t25 = t.times(t.times(x.times(x)));
    S::law_plus_commutes(t25, s.times(s));
    let t26 = x.times(x).plus(y.times(y));
    S::law_minus(t26.plus(z.times(z)), S::one_value());
    S::law_plus_associates(x.times(x), y.times(y), z.times(z));
    let t27 = y.times(y).plus(z.times(z));
    S::law_plus_associates(x.times(x), t27, S::one_value().negated());
    S::law_plus_associates(y.times(y), z.times(z), S::one_value().negated());
    S::law_plus_commutes(z.times(z), S::one_value().negated());
    lemma_swap_terms(y.times(y), S::one_value().negated(), z.times(z));
    lemma_swap_terms(x.times(x), S::one_value().negated(), t27);
    let t28 = S::one_value().negated().plus(x.times(x).plus(t27));
    lemma_distributes_right(s.times(s), t25, t28);
    S::law_distributes(s.times(s), S::one_value().negated(), x.times(x).plus(t27));
    lemma_times_negated(s.times(s), S::one_value());
    S::law_times_one(s.times(s));
    S::law_distributes(s.times(s), x.times(x), t27);
    S::law_times_associates(s, s, x.times(x));
    S::law_distributes(s.times(s), y.times(y), z.times(z));
    S::law_times_associates(s, s, y.times(y));
    S::law_times_associates(s, s, z.times(z));
    S::law_distributes(t25, S::one_value().negated(), x.times(x).plus(t27));
    lemma_times_negated(t25, S::one_value());
    S::law_times_one(t25);
    S::law_distributes(t25, x.times(x), t27);
    S::law_times_associates(t, t.times(x.times(x)), x.times(x));
    S::law_times_associates(t, x.times(x), x.times(x));
    S::law_times_associates(x, x, x.times(x));
    S::law_distributes(t25, y.times(y), z.times(z));
    S::law_times_associates(t, t.times(x.times(x)), y.times(y));
    S::law_times_associates(t, x.times(x), y.times(y));
    S::law_times_associates(x, x, y.times(y));
    S::law_times_associates(t, t.times(x.times(x)), z.times(z));
    S::law_times_associates(t, x.times(x), z.times(z));
    S::law_times_associates(x, x, z.times(z));
    let t29 = s.times(s.times(x.times(x)));
    S::law_plus_associates(
        s.times(s).negated(),
        t29.plus(t12.plus(t5)),
        t25.negated().plus(t22),
    );
    S::law_plus_associates(t29, t12.plus(t5), t25.negated().plus(t22));
    S::law_plus_associates(t12, t5, t25.negated().plus(t22));
    S::law_minus(S::one_value(), x.times(x));
    let t30 = c.times(c).plus(s.times(s));
    S::law_minus(t30, S::one_value());
    S::law_plus_associates(c.times(c), s.times(s), S::one_value().negated());
    S::law_plus_commutes(s.times(s), S::one_value().negated());
    lemma_swap_terms(c.times(c), S::one_value().negated(), s.times(s));
    let t31 = S::one_value().negated().plus(t30);
    lemma_distributes_right(S::one_value(), x.times(x).negated(), t31);
    S::law_distributes(S::one_value(), S::one_value().negated(), t30);
    lemma_times_negated(S::one_value(), S::one_value());
    lemma_one_times(S::one_value());
    S::law_distributes(S::one_value(), c.times(c), s.times(s));
    lemma_one_times(c.times(c));
    lemma_one_times(s.times(s));
    S::law_distributes(x.times(x).negated(), S::one_value().negated(), t30);
    lemma_negated_times(x.times(x), S::one_value().negated());
    lemma_times_negated(x.times(x), S::one_value());
    let t32 = x.times(x).times(S::one_value());
    lemma_negated_twice(t32);
    S::law_times_one(x.times(x));
    S::law_distributes(x.times(x).negated(), c.times(c), s.times(s));
    lemma_negated_times(x.times(x), c.times(c));
    S::law_times_associates(x, x, c.times(c));
    lemma_swap_factors(x, c, c);
    S::law_times_commutes(x, c);
    lemma_swap_factors(x, c, c.times(x));
    lemma_swap_factors(x, c, x);
    lemma_negated_times(x.times(x), s.times(s));
    S::law_times_associates(x, x, s.times(s));
    lemma_swap_factors(x, s, s);
    S::law_times_commutes(x, s);
    lemma_swap_factors(x, s, s.times(x));
    lemma_swap_factors(x, s, x);
    let t33 = c.times(c.times(x.times(x)));
    let t34 = t33.negated().plus(t29.negated());
    S::law_plus_associates(S::one_value().negated(), t30, x.times(x).plus(t34));
    S::law_plus_associates(c.times(c), s.times(s), x.times(x).plus(t34));
    let t35 = t5.plus(t25.negated().plus(t22));
    let t36 = s.times(s).negated().plus(t29.plus(t12.plus(t35)));
    let t37 = s.times(s).plus(x.times(x).plus(t34));
    let t38 = S::one_value().negated().plus(c.times(c).plus(t37));
    S::law_plus_associates(S::one_value(), t36, t38);
    S::law_plus_associates(s.times(s).negated(), t29.plus(t12.plus(t35)), t38);
    S::law_plus_associates(t29, t12.plus(t35), t38);
    S::law_plus_associates(t12, t35, t38);
    S::law_plus_associates(t5, t25.negated().plus(t22), t38);
    S::law_plus_associates(t25.negated(), t22, t38);
    S::law_plus_associates(t.times(t.times(t2)), t19, t38);
    S::law_plus_associates(t.times(t.times(t7)), t.times(t.times(t13)), t38);
    lemma_swap_terms(t.times(t.times(t13)), S::one_value().negated(), c.times(c).plus(t37));
    lemma_swap_terms(t.times(t.times(t13)), c.times(c), t37);
    lemma_swap_terms(t.times(t.times(t13)), s.times(s), x.times(x).plus(t34));
    lemma_swap_terms(t.times(t.times(t13)), x.times(x), t34);
    lemma_swap_terms(t.times(t.times(t13)), t33.negated(), t29.negated());
    S::law_plus_commutes(t.times(t.times(t13)), t29.negated());
    let t39 = t29.negated().plus(t.times(t.times(t13)));
    let t40 = x.times(x).plus(t33.negated().plus(t39));
    let t41 = c.times(c).plus(s.times(s).plus(t40));
    lemma_swap_terms(t.times(t.times(t7)), S::one_value().negated(), t41);
    lemma_swap_terms(t.times(t.times(t7)), c.times(c), s.times(s).plus(t40));
    lemma_swap_terms(t.times(t.times(t7)), s.times(s), t40);
    lemma_swap_terms(t.times(t.times(t7)), x.times(x), t33.negated().plus(t39));
    lemma_swap_terms(t.times(t.times(t7)), t33.negated(), t39);
    lemma_swap_terms(t.times(t.times(t7)), t29.negated(), t.times(t.times(t13)));
    let t42 = t33.negated().plus(t29.negated().plus(t19));
    let t43 = s.times(s).plus(x.times(x).plus(t42));
    lemma_swap_terms(t.times(t.times(t2)), S::one_value().negated(), c.times(c).plus(t43));
    lemma_swap_terms(t.times(t.times(t2)), c.times(c), t43);
    lemma_swap_terms(t.times(t.times(t2)), s.times(s), x.times(x).plus(t42));
    lemma_swap_terms(t.times(t.times(t2)), x.times(x), t42);
    lemma_swap_terms(t.times(t.times(t2)), t33.negated(), t29.negated().plus(t19));
    lemma_swap_terms(t.times(t.times(t2)), t29.negated(), t19);
    let t44 = t33.negated().plus(t29.negated().plus(t22));
    let t45 = s.times(s).plus(x.times(x).plus(t44));
    lemma_swap_terms(t25.negated(), S::one_value().negated(), c.times(c).plus(t45));
    lemma_swap_terms(t25.negated(), c.times(c), t45);
    lemma_swap_terms(t25.negated(), s.times(s), x.times(x).plus(t44));
    lemma_swap_terms(t25.negated(), x.times(x), t44);
    lemma_swap_terms(t25.negated(), t33.negated(), t29.negated().plus(t22));
    lemma_swap_terms(t25.negated(), t29.negated(), t22);
    let t46 = t29.negated().plus(t25.negated().plus(t22));
    let t47 = x.times(x).plus(t33.negated().plus(t46));
    let t48 = c.times(c).plus(s.times(s).plus(t47));
    lemma_swap_terms(t5, S::one_value().negated(), t48);
    lemma_swap_terms(t5, c.times(c), s.times(s).plus(t47));
    lemma_swap_terms(t5, s.times(s), t47);
    lemma_swap_terms(t5, x.times(x), t33.negated().plus(t46));
    lemma_swap_terms(t5, t33.negated(), t46);
    lemma_swap_terms(t5, t29.negated(), t25.negated().plus(t22));
    let t49 = t33.negated().plus(t29.negated().plus(t35));
    let t50 = s.times(s).plus(x.times(x).plus(t49));
    lemma_swap_terms(t12, S::one_value().negated(), c.times(c).plus(t50));
    lemma_swap_terms(t12, c.times(c), t50);
    lemma_swap_terms(t12, s.times(s), x.times(x).plus(t49));
    lemma_swap_terms(t12, x.times(x), t49);
    lemma_swap_terms(t12, t33.negated(), t29.negated().plus(t35));
    lemma_swap_terms(t12, t29.negated(), t35);
    let t51 = t29.negated().plus(t12.plus(t35));
    let t52 = x.times(x).plus(t33.negated().plus(t51));
    let t53 = c.times(c).plus(s.times(s).plus(t52));
    lemma_swap_terms(t29, S::one_value().negated(), t53);
    lemma_swap_terms(t29, c.times(c), s.times(s).plus(t52));
    lemma_swap_terms(t29, s.times(s), t52);
    lemma_swap_terms(t29, x.times(x), t33.negated().plus(t51));
    lemma_swap_terms(t29, t33.negated(), t51);
    lemma_cancels_front(t29, t12.plus(t35));
    let t54 = t33.negated().plus(t12.plus(t35));
    let t55 = s.times(s).plus(x.times(x).plus(t54));
    lemma_swap_terms(s.times(s).negated(), S::one_value().negated(), c.times(c).plus(t55));
    lemma_swap_terms(s.times(s).negated(), c.times(c), t55);
    lemma_cancels_front(s.times(s), x.times(x).plus(t54));
    let t56 = c.times(c).plus(x.times(x).plus(t54));
    lemma_cancels_front(S::one_value(), t56);
    S::law_times_associates(c, x, x);
    S::law_plus_associates(x.times(x), t.times(x.times(x)), c.times(x.times(x)));
    S::law_plus_commutes(t.times(x.times(x)), c.times(x.times(x)));
    S::law_minus(c.plus(t), S::one_value());
    S::law_plus_associates(c, t, S::one_value().negated());
    S::law_plus_commutes(t, S::one_value().negated());
    lemma_swap_terms(c, S::one_value().negated(), t);
    let t57 = c.times(x.times(x)).plus(t.times(x.times(x)));
    let t58 = S::one_value().negated().plus(c.plus(t));
    lemma_distributes_right(x.times(x), t57, t58);
    S::law_distributes(x.times(x), S::one_value().negated(), c.plus(t));
    lemma_times_negated(x.times(x), S::one_value());
    S::law_times_one(x.times(x));
    S::law_distributes(x.times(x), c, t);
    S::law_times_associates(x, x, c);
    S::law_times_commutes(x, c);
    lemma_swap_factors(x, c, x);
    S::law_times_associates(x, x, t);
    S::law_times_commutes(x, t);
    lemma_swap_factors(x, t, x);
    lemma_distributes_right(c.times(x.times(x)), t.times(x.times(x)), t58);
    S::law_distributes(c.times(x.times(x)), S::one_value().negated(), c.plus(t));
    lemma_times_negated(c.times(x.times(x)), S::one_value());
    S::law_times_one(c.times(x.times(x)));
    S::law_distributes(c.times(x.times(x)), c, t);
    S::law_times_associates(c, x.times(x), c);
    S::law_times_associates(x, x, c);
    S::law_times_commutes(x, c);
    lemma_swap_factors(x, c, x);
    S::law_times_associates(c, x.times(x), t);
    S::law_times_associates(x, x, t);
    S::law_times_commutes(x, t);
    lemma_swap_factors(x, t, x);
    S::law_distributes(t.times(x.times(x)), S::one_value().negated(), c.plus(t));
    lemma_times_negated(t.times(x.times(x)), S::one_value());
    S::law_times_one(t.times(x.times(x)));
    S::law_distributes(t.times(x.times(x)), c, t);
    S::law_times_associates(t, x.times(x), c);
    S::law_times_associates(x, x, c);
    S::law_times_commutes(x, c);
    lemma_swap_factors(x, c, x);
    lemma_swap_factors(t, c, x.times(x));
    S::law_times_associates(t, x.times(x), t);
    S::law_times_associates(x, x, t);
    S::law_times_commutes(x, t);
    lemma_swap_factors(x, t, x);
    let t59 = c.times(x.times(x)).negated();
    let t60 = t.times(x.times(x)).negated();
    S::law_plus_associates(t59, t33.plus(t1), t60.plus(t1.plus(t25)));
    S::law_plus_associates(t33, t1, t60.plus(t1.plus(t25)));
    lemma_swap_terms(t1, t60, t1.plus(t25));
    lemma_swap_terms(t33, t60, t1.plus(t1.plus(t25)));
    let t61 = t33.plus(t1.plus(t1.plus(t25)));
    S::law_plus_associates(x.times(x).negated(), t57, t59.plus(t60.plus(t61)));
    S::law_plus_associates(c.times(x.times(x)), t.times(x.times(x)), t59.plus(t60.plus(t61)));
    lemma_swap_terms(t.times(x.times(x)), t59, t60.plus(t61));
    lemma_cancels_front(t.times(x.times(x)), t61);
    lemma_cancels_front(c.times(x.times(x)), t61);
    let t62 = x.times(x).negated().plus(t61);
    S::law_plus_associates(c.times(c), x.times(x).plus(t54), t62);
    S::law_plus_associates(x.times(x), t54, t62);
    S::law_plus_associates(t33.negated(), t12.plus(t35), t62);
    S::law_plus_associates(t12, t35, t62);
    S::law_plus_associates(t5, t25.negated().plus(t22), t62);
    S::law_plus_associates(t25.negated(), t22, t62);
    S::law_plus_associates(t.times(t.times(t2)), t19, t62);
    S::law_plus_associates(t.times(t.times(t7)), t.times(t.times(t13)), t62);
    lemma_swap_terms(t.times(t.times(t13)), x.times(x).negated(), t61);
    lemma_swap_terms(t.times(t.times(t13)), t33, t1.plus(t1.plus(t25)));
    lemma_swap_terms(t.times(t.times(t13)), t1, t1.plus(t25));
    lemma_swap_terms(t.times(t.times(t13)), t1, t25);
    S::law_plus_commutes(t.times(t.times(t13)), t25);
    let t63 = t25.plus(t.times(t.times(t13)));
    let t64 = t33.plus(t1.plus(t1.plus(t63)));
    lemma_swap_terms(t.times(t.times(t7)), x.times(x).negated(), t64);
    lemma_swap_terms(t.times(t.times(t7)), t33, t1.plus(t1.plus(t63)));
    lemma_swap_terms(t.times(t.times(t7)), t1, t1.plus(t63));
    lemma_swap_terms(t.times(t.times(t7)), t1, t63);
    lemma_swap_terms(t.times(t.times(t7)), t25, t.times(t.times(t13)));
    let t65 = t1.plus(t1.plus(t25.plus(t19)));
    lemma_swap_terms(t.times(t.times(t2)), x.times(x).negated(), t33.plus(t65));
    lemma_swap_terms(t.times(t.times(t2)), t33, t65);
    lemma_swap_terms(t.times(t.times(t2)), t1, t1.plus(t25.plus(t19)));
    lemma_swap_terms(t.times(t.times(t2)), t1, t25.plus(t19));
    lemma_swap_terms(t.times(t.times(t2)), t25, t19);
    let t66 = t1.plus(t1.plus(t25.plus(t22)));
    lemma_swap_terms(t25.negated(), x.times(x).negated(), t33.plus(t66));
    lemma_swap_terms(t25.negated(), t33, t66);
    lemma_swap_terms(t25.negated(), t1, t1.plus(t25.plus(t22)));
    lemma_swap_terms(t25.negated(), t1, t25.plus(t22));
    lemma_cancels_front(t25, t22);
    let t67 = t33.plus(t1.plus(t1.plus(t22)));
    lemma_swap_terms(t5, x.times(x).negated(), t67);
    lemma_swap_terms(t5, t33, t1.plus(t1.plus(t22)));
    lemma_swap_terms(t5, t1, t1.plus(t22));
    lemma_swap_terms(t5, t1, t22);
    let t68 = t1.plus(t1.plus(t5.plus(t22)));
    lemma_swap_terms(t12, x.times(x).negated(), t33.plus(t68));
    lemma_swap_terms(t12, t33, t68);
    lemma_swap_terms(t12, t1, t1.plus(t5.plus(t22)));
    lemma_swap_terms(t12, t1, t5.plus(t22));
    let t69 = t1.plus(t12.plus(t5.plus(t22)));
    lemma_swap_terms(t33.negated(), x.times(x).negated(), t33.plus(t1.plus(t69)));
    lemma_cancels_front(t33, t1.plus(t69));
    lemma_cancels_front(x.times(x), t1.plus(t69));
    lemma_minus_self(S::one_value());
    let t70 = t.times(t).times(x).times(x);
    lemma_times_zero(t70.plus(s.times(s)));
    let t71 = S::one_value().minus(x.times(x));
    lemma_times_zero(t71);
    let t72 = x.times(x).plus(t.times(x).times(x));
    let t73 = t72.plus(c.times(x).times(x));
    lemma_times_zero(t73);
    S::law_plus_zero(S::one_value());
}

/// The first two columns of the matrix of Rodrigues' formula are orthogonal,
/// for a unit axis and a cosine and sine whose squares sum to one.
proof fn lemma_rodrigues_first_columns_are_orthogonal<S: Field>(axis: Vector3<S>, cos: S, sin: S)
    requires
        axis.dot_product(axis) == S::one_value(),
        cos.times(cos).plus(sin.times(sin)) == S::one_value(),
    ensures
        ({
            let m = Rotation3::rodrigues(axis, cos, sin).matrix;
            m.col0().dot_product(m.col1()) == S::zero_value()
        }),
{
    let (x, y, z, c, s) = (axis.x, axis.y, axis.z, cos, sin);
    let t = S::one_value().minus(c);
    // c + t = 1
    S::law_minus(S::one_value(), c);
    lemma_swap_terms(c, S::one_value(), c.negated());
    S::law_plus_negated(c);
    S::law_plus_zero(S::one_value());
    S::law_times_associates(t, x, x);
    S::law_plus_commutes(t.times(x.times(x)), c);
    S::law_minus(t.times(x).times(y), s.times(z));
    S::law_times_associates(t, x, y);
    S::law_plus_commutes(t.times(x.times(y)), s.times(z).negated());
    let t0 = s.times(z).negated().plus(t.times(x.times(y)));
    lemma_distributes_right(c, t.times(x.times(x)), t0);
    S::law_distributes(c, s.times(z).negated(), t.times(x.times(y)));
    lemma_times_negated(c, s.times(z));
    S::law_distributes(t.times(x.times(x)), s.times(z).negated(), t.times(x.times(y)));
    lemma_times_negated(t.times(x.times(x)), s.times(z));
    S::law_times_associates(t, x.times(x), s.times(z));
    S::law_times_associates(x, x, s.times(z));
    lemma_swap_factors(x, s, z);
    lemma_swap_factors(x, s, x.times(z));
    lemma_swap_factors(t, s, x.times(x.times(z)));
    S::law_times_associates(t, x.times(x), t.times(x.times(y)));
    S::law_times_associates(x, x, t.times(x.times(y)));
    lemma_swap_factors(x, t, x.times(y));
    lemma_swap_factors(x, t, x.times(x.times(y)));
    let t1 = c.times(s.times(z)).negated();
    let t2 = c.times(t.times(x.times(y)));
    let t3 = t.times(x.times(x.times(z)));
    let t4 = x.times(x.times(x.times(y)));
    let t5 = s.times(t3).negated().plus(t.times(t.times(t4)));
    S::law_plus_associates(t1, t2, t5);
    S::law_plus_commutes(t.times(x.times(y)), s.times(z));
    S::law_times_associates(t, y, y);
    S::law_plus_commutes(t.times(y.times(y)), c);
    let t6 = c.plus(t.times(y.times(y)));
    lemma_distributes_right(s.times(z), t.times(x.times(y)), t6);
    S::law_distributes(s.times(z), c, t.times(y.times(y)));
    S::law_times_associates(s, z, c);
    S::law_times_commutes(z, c);
    lemma_swap_factors(s, c, z);
    S::law_times_associates(s, z, t.times(y.times(y)));
    lemma_swap_factors(z, t, y.times(y));
    lemma_swap_factors(z, y, y);
    S::law_times_commutes(z, y);
    S::law_distributes(t.times(x.times(y)), c, t.times(y.times(y)));
    S::law_times_associates(t, x.times(y), c);
    S::law_times_associates(x, y, c);
    S::law_times_commutes(y, c);
    lemma_swap_factors(x, c, y);
    lemma_swap_factors(t, c, x.times(y));
    S::law_times_associates(t, x.times(y), t.times(y.times(y)));
    S::law_times_associates(x, y, t.times(y.times(y)));
    lemma_swap_factors(y, t, y.times(y));
    lemma_swap_factors(x, t, y.times(y.times(y)));
    let t7 = t.times(y.times(y.times(z)));
    let t8 = x.times(y.times(y.times(y)));
    let t9 = t2.plus(t.times(t.times(t8)));
    S::law_plus_associates(c.times(s.times(z)), s.times(t7), t9);
    lemma_swap_terms(s.times(t7), t2, t.times(t.times(t8)));
    let t10 = s.times(t7).plus(t.times(t.times(t8)));
    let t11 = c.times(s.times(z)).plus(t2.plus(t10));
    S::law_plus_associates(t1, t2.plus(t5), t11);
    S::law_plus_associates(t2, t5, t11);
    S::law_plus_associates(s.times(t3).negated(), t.times(t.times(t4)), t11);
    lemma_swap_terms(t.times(t.times(t4)), c.times(s.times(z)), t2.plus(t10));
    lemma_swap_terms(t.times(t.times(t4)), t2, t10);
    lemma_swap_terms(t.times(t.times(t4)), s.times(t7), t.times(t.times(t8)));
    let t12 = t.times(t.times(t4)).plus(t.times(t.times(t8)));
    let t13 = t2.plus(s.times(t7).plus(t12));
    lemma_swap_terms(s.times(t3).negated(), c.times(s.times(z)), t13);
    lemma_swap_terms(s.times(t3).negated(), t2, s.times(t7).plus(t12));
    let t14 = s.times(t3).negated().plus(s.times(t7).plus(t12));
    lemma_swap_terms(t2, c.times(s.times(z)), t2.plus(t14));
    lemma_cancels_front(c.times(s.times(z)), t2.plus(t2.plus(t14)));
    S::law_minus(t.times(x).times(z), s.times(y));
    S::law_times_associates(t, x, z);
    S::law_plus_commutes(t.times(x.times(z)), s.times(y).negated());
    S::law_times_associates(t, y, z);
    S::law_plus_commutes(t.times(y.times(z)), s.times(x));
    let t15 = s.times(x).plus(t.times(y.times(z)));
    lemma_distributes_right(s.times(y).negated(), t.times(x.times(z)), t15);
    S::law_distributes(s.times(y).negated(), s.times(x), t.times(y.times(z)));
    lemma_negated_times(s.times(y), s.times(x));
    S::law_times_associates(s, y, s.times(x));
    lemma_swap_factors(y, s, x);
    S::law_times_commutes(y, x);
    lemma_negated_times(s.times(y), t.times(y.times(z)));
    S::law_times_associates(s, y, t.times(y.times(z)));
    lemma_swap_factors(y, t, y.times(z));
    S::law_distributes(t.times(x.times(z)), s.times(x), t.times(y.times(z)));
    S::law_times_associates(t, x.times(z), s.times(x));
    S::law_times_associates(x, z, s.times(x));
    lemma_swap_factors(z, s, x);
    S::law_times_commutes(z, x);
    lemma_swap_factors(x, s, x.times(z));
    lemma_swap_factors(t, s, x.times(x.times(z)));
    S::law_times_associates(t, x.times(z), t.times(y.times(z)));
    S::law_times_associates(x, z, t.times(y.times(z)));
    lemma_swap_factors(z, t, y.times(z));
    lemma_swap_factors(z, y, z);
    lemma_swap_factors(x, t, y.times(z.times(z)));
    let t16 = s.times(s.times(x.times(y)));
    let t17 = x.times(y.times(z.times(z)));
    let t18 = s.times(t3).plus(t.times(t.times(t17)));
    S::law_plus_associates(t16.negated(), s.times(t7).negated(), t18);
    lemma_swap_terms(s.times(t7).negated(), s.times(t3), t.times(t.times(t17)));
    let t19 = s.times(t7).negated().plus(t.times(t.times(t17)));
    let t20 = t16.negated().plus(s.times(t3).plus(t19));
    S::law_plus_associates(t2, t2.plus(t14), t20);
    S::law_plus_associates(t2, t14, t20);
    S::law_plus_associates(s.times(t3).negated(), s.times(t7).plus(t12), t20);
    S::law_plus_associates(s.times(t7), t12, t20);
    S::law_plus_associates(t.times(t.times(t4)), t.times(t.times(t8)), t20);
    lemma_swap_terms(t.times(t.times(t8)), t16.negated(), s.times(t3).plus(t19));
    lemma_swap_terms(t.times(t.times(t8)), s.times(t3), t19);
    lemma_swap_terms(t.times(t.times(t8)), s.times(t7).negated(), t.times(t.times(t17)));
    let t21 = t.times(t.times(t8)).plus(t.times(t.times(t17)));
    let t22 = s.times(t7).negated().plus(t21);
    lemma_swap_terms(t.times(t.times(t4)), t16.negated(), s.times(t3).plus(t22));
    lemma_swap_terms(t.times(t.times(t4)), s.times(t3), t22);
    lemma_swap_terms(t.times(t.times(t4)), s.times(t7).negated(), t21);
    let t23 = t.times(t.times(t4)).plus(t21);
    let t24 = s.times(t7).negated().plus(t23);
    lemma_swap_terms(s.times(t7), t16.negated(), s.times(t3).plus(t24));
    lemma_swap_terms(s.times(t7), s.times(t3), t24);
    lemma_cancels_front(s.times(t7), t23);
    lemma_swap_terms(s.times(t3).negated(), t16.negated(), s.times(t3).plus(t23));
    lemma_cancels_front(s.times(t3), t23);
    S::law_times_associates(t, t, x);
    S::law_times_associates(t, t.times(x), y);
    S::law_times_associates(t, x, y);
    let t25 = x.times(x).plus(y.times(y));
    S::law_minus(t25.plus(z.times(z)), S::one_value());
    S::law_plus_associates(x.times(x), y.times(y), z.times(z));
    let t26 = y.times(y).plus(z.times(z));
    S::law_plus_associates(x.times(x), t26, S::one_value().negated());
    S::law_plus_associates(y.times(y), z.times(z), S::one_value().negated());
    S::law_plus_commutes(z.times(z), S::one_value().negated());
    lemma_swap_terms(y.times(y), S::one_value().negated(), z.times(z));
    lemma_swap_terms(x.times(x), S::one_value().negated(), t26);
    let t27 = t.times(t.times(x.times(y)));
    S::law_distributes(t27, S::one_value().negated(), x.times(x).plus(t26));
    lemma_times_negated(t27, S::one_value());
    S::law_times_one(t27);
    S::law_distributes(t27, x.times(x), t26);
    S::law_times_associates(t, t.times(x.times(y)), x.times(x));
    S::law_times_associates(t, x.times(y), x.times(x));
    S::law_times_associates(x, y, x.times(x));
    lemma_swap_factors(y, x, x);
    S::law_times_commutes(y, x);
    S::law_distributes(t27, y.times(y), z.times(z));
    S::law_times_associates(t, t.times(x.times(y)), y.times(y));
    S::law_times_associates(t, x.times(y), y.times(y));
    S::law_times_associates(x, y, y.times(y));
    S::law_times_associates(t, t.times(x.times(y)), z.times(z));
    S::law_times_associates(t, x.times(y), z.times(z));
    S::law_times_associates(x, y, z.times(z));
    lemma_zero_plus(t27.negated().plus(t23));
    let t28 = c.times(c).plus(s.times(s));
    S::law_minus(t28, S::one_value());
    S::law_plus_associates(c.times(c), s.times(s), S::one_value().negated());
    S::law_plus_commutes(s.times(s), S::one_value().negated());
    lemma_swap_terms(c.times(c), S::one_value().negated(), s.times(s));
    S::law_distributes(x.times(y).negated(), S::one_value().negated(), t28);
    lemma_negated_times(x.times(y), S::one_value().negated());
    lemma_times_negated(x.times(y), S::one_value());
    let t29 = x.times(y).times(S::one_value());
    lemma_negated_twice(t29);
    S::law_times_one(x.times(y));
    S::law_distributes(x.times(y).negated(), c.times(c), s.times(s));
    lemma_negated_times(x.times(y), c.times(c));
    S::law_times_associates(x, y, c.times(c));
    lemma_swap_factors(y, c, c);
    S::law_times_commutes(y, c);
    lemma_swap_factors(x, c, c.times(y));
    lemma_swap_factors(x, c, y);
    lemma_negated_times(x.times(y), s.times(s));
    S::law_times_associates(x, y, s.times(s));
    lemma_swap_factors(y, s, s);
    S::law_times_commutes(y, s);
    lemma_swap_factors(x, s, s.times(y));
    lemma_swap_factors(x, s, y);
    let t30 = c.times(c.times(x.times(y)));
    let t31 = t30.negated().plus(t16.negated());
    S::law_plus_associates(t27.negated(), t23, x.times(y).plus(t31));
    S::law_plus_associates(t.times(t.times(t4)), t21, x.times(y).plus(t31));
    S::law_plus_associates(t.times(t.times(t8)), t.times(t.times(t17)), x.times(y).plus(t31));
    lemma_swap_terms(t.times(t.times(t17)), x.times(y), t31);
    lemma_swap_terms(t.times(t.times(t17)), t30.negated(), t16.negated());
    S::law_plus_commutes(t.times(t.times(t17)), t16.negated());
    let t32 = t16.negated().plus(t.times(t.times(t17)));
    lemma_swap_terms(t.times(t.times(t8)), x.times(y), t30.negated().plus(t32));
    lemma_swap_terms(t.times(t.times(t8)), t30.negated(), t32);
    lemma_swap_terms(t.times(t.times(t8)), t16.negated(), t.times(t.times(t17)));
    let t33 = t30.negated().plus(t16.negated().plus(t21));
    lemma_swap_terms(t.times(t.times(t4)), x.times(y), t33);
    lemma_swap_terms(t.times(t.times(t4)), t30.negated(), t16.negated().plus(t21));
    lemma_swap_terms(t.times(t.times(t4)), t16.negated(), t21);
    let t34 = t30.negated().plus(t16.negated().plus(t23));
    lemma_swap_terms(t27.negated(), x.times(y), t34);
    lemma_swap_terms(t27.negated(), t30.negated(), t16.negated().plus(t23));
    lemma_swap_terms(t27.negated(), t16.negated(), t23);
    S::law_times_associates(c, x, y);
    S::law_plus_associates(x.times(y), t.times(x.times(y)), c.times(x.times(y)));
    S::law_plus_commutes(t.times(x.times(y)), c.times(x.times(y)));
    S::law_minus(c.plus(t), S::one_value());
    S::law_plus_associates(c, t, S::one_value().negated());
    S::law_plus_commutes(t, S::one_value().negated());
    lemma_swap_terms(c, S::one_value().negated(), t);
    let t35 = c.times(x.times(y)).plus(t.times(x.times(y)));
    let t36 = S::one_value().negated().plus(c.plus(t));
    lemma_distributes_right(x.times(y), t35, t36);
    S::law_distributes(x.times(y), S::one_value().negated(), c.plus(t));
    lemma_times_negated(x.times(y), S::one_value());
    S::law_times_one(x.times(y));
    S::law_distributes(x.times(y), c, t);
    S::law_times_associates(x, y, c);
    S::law_times_commutes(y, c);
    lemma_swap_factors(x, c, y);
    S::law_times_associates(x, y, t);
    S::law_times_commutes(y, t);
    lemma_swap_factors(x, t, y);
    lemma_distributes_right(c.times(x.times(y)), t.times(x.times(y)), t36);
    S::law_distributes(c.times(x.times(y)), S::one_value().negated(), c.plus(t));
    lemma_times_negated(c.times(x.times(y)), S::one_value());
    S::law_times_one(c.times(x.times(y)));
    S::law_distributes(c.times(x.times(y)), c, t);
    S::law_times_associates(c, x.times(y), c);
    S::law_times_associates(x, y, c);
    S::law_times_commutes(y, c);
    lemma_swap_factors(x, c, y);
    S::law_times_associates(c, x.times(y), t);
    S::law_times_associates(x, y, t);
    S::law_times_commutes(y, t);
    lemma_swap_factors(x, t, y);
    S::law_distributes(t.times(x.times(y)), S::one_value().negated(), c.plus(t));
    lemma_times_negated(t.times(x.times(y)), S::one_value());
    S::law_times_one(t.times(x.times(y)));
    S::law_distributes(t.times(x.times(y)), c, t);
    S::law_times_associates(t, x.times(y), c);
    S::law_times_associates(x, y, c);
    S::law_times_commutes(y, c);
    lemma_swap_factors(x, c, y);
    lemma_swap_factors(t, c, x.times(y));
    S::law_times_associates(t, x.times(y), t);
    S::law_times_associates(x, y, t);
    S::law_times_commutes(y, t);
    lemma_swap_factors(x, t, y);
    let t37 = c.times(x.times(y)).negated();
    let t38 = t.times(x.times(y)).negated();
    S::law_plus_associates(t37, t30.plus(t2), t38.plus(t2.plus(t27)));
    S::law_plus_associates(t30, t2, t38.plus(t2.plus(t27)));
    lemma_swap_terms(t2, t38, t2.plus(t27));
    lemma_swap_terms(t30, t38, t2.plus(t2.plus(t27)));
    let t39 = t30.plus(t2.plus(t2.plus(t27)));
    S::law_plus_associates(x.times(y).negated(), t35, t37.plus(t38.plus(t39)));
    S::law_plus_associates(c.times(x.times(y)), t.times(x.times(y)), t37.plus(t38.plus(t39)));
    lemma_swap_terms(t.times(x.times(y)), t37, t38.plus(t39));
    lemma_cancels_front(t.times(x.times(y)), t39);
    lemma_cancels_front(c.times(x.times(y)), t39);
    let t40 = t16.negated().plus(t27.negated().plus(t23));
    let t41 = x.times(y).negated().plus(t39);
    S::law_plus_associates(x.times(y), t30.negated().plus(t40), t41);
    S::law_plus_associates(t30.negated(), t40, t41);
    S::law_plus_associates(t16.negated(), t27.negated().plus(t23), t41);
    S::law_plus_associates(t27.negated(), t23, t41);
    S::law_plus_associates(t.times(t.times(t4)), t21, t41);
    S::law_plus_associates(t.times(t.times(t8)), t.times(t.times(t17)), t41);
    lemma_swap_terms(t.times(t.times(t17)), x.times(y).negated(), t39);
    lemma_swap_terms(t.times(t.times(t17)), t30, t2.plus(t2.plus(t27)));
    lemma_swap_terms(t.times(t.times(t17)), t2, t2.plus(t27));
    lemma_swap_terms(t.times(t.times(t17)), t2, t27);
    S::law_plus_commutes(t.times(t.times(t17)), t27);
    let t42 = t27.plus(t.times(t.times(t17)));
    let t43 = t30.plus(t2.plus(t2.plus(t42)));
    lemma_swap_terms(t.times(t.times(t8)), x.times(y).negated(), t43);
    lemma_swap_terms(t.times(t.times(t8)), t30, t2.plus(t2.plus(t42)));
    lemma_swap_terms(t.times(t.times(t8)), t2, t2.plus(t42));
    lemma_swap_terms(t.times(t.times(t8)), t2, t42);
    lemma_swap_terms(t.times(t.times(t8)), t27, t.times(t.times(t17)));
    let t44 = t2.plus(t2.plus(t27.plus(t21)));
    lemma_swap_terms(t.times(t.times(t4)), x.times(y).negated(), t30.plus(t44));
    lemma_swap_terms(t.times(t.times(t4)), t30, t44);
    lemma_swap_terms(t.times(t.times(t4)), t2, t2.plus(t27.plus(t21)));
    lemma_swap_terms(t.times(t.times(t4)), t2, t27.plus(t21));
    lemma_swap_terms(t.times(t.times(t4)), t27, t21);
    let t45 = t2.plus(t2.plus(t27.plus(t23)));
    lemma_swap_terms(t27.negated(), x.times(y).negated(), t30.plus(t45));
    lemma_swap_terms(t27.negated(), t30, t45);
    lemma_swap_terms(t27.negated(), t2, t2.plus(t27.plus(t23)));
    lemma_swap_terms(t27.negated(), t2, t27.plus(t23));
    lemma_cancels_front(t27, t23);
    let t46 = t30.plus(t2.plus(t2.plus(t23)));
    lemma_swap_terms(t16.negated(), x.times(y).negated(), t46);
    lemma_swap_terms(t16.negated(), t30, t2.plus(t2.plus(t23)));
    lemma_swap_terms(t16.negated(), t2, t2.plus(t23));
    lemma_swap_terms(t16.negated(), t2, t23);
    let t47 = t2.plus(t16.negated().plus(t23));
    lemma_swap_terms(t30.negated(), x.times(y).negated(), t30.plus(t2.plus(t47)));
    lemma_cancels_front(t30, t2.plus(t47));
    lemma_cancels_front(x.times(y), t2.plus(t47));
    lemma_minus_self(S::one_value());
    let t48 = t.times(t).times(x).times(y);
    lemma_times_zero(t48);
    lemma_times_zero(x.times(y).negated());
    let t49 = x.times(y).plus(t.times(x).times(y));
    let t50 = t49.plus(c.times(x).times(y));
    lemma_times_zero(t50);
    S::law_plus_zero(S::zero_value());
}

/// The determinant of the matrix of Rodrigues' formula is one, for a unit axis
/// and a cosine and sine whose squares sum to one.
pub proof fn lemma_rodrigues_determinant<S: Field>(axis: Vector3<S>, cos: S, sin: S)
    requires
        axis.dot_product(axis) == S::one_value(),
        cos.times(cos).plus(sin.times(sin)) == S::one_value(),
    ensures
        Rotation3::rodrigues(axis, cos, sin).matrix.determinant_value() == S::one_value(),
{
    let (x, y, z, c, s) = (axis.x, axis.y, axis.z, cos, sin);
    let t = S::one_value().minus(c);
    // c + t = 1
    S::law_minus(S::one_value(), c);
    lemma_swap_terms(c, S::one_value(), c.negated());
    S::law_plus_negated(c);
    S::law_plus_zero(S::one_value());
    S::law_times_associates(t, x, x);
    S::law_plus_commutes(t.times(x.times(x)), c);
    let t0 = t.times(y).times(y).plus(c);
    let t1 = t.times(z).times(z).plus(c);
    let t2 = t.times(y).times(z).minus(s.times(x));
    let t3 = t.times(y).times(z).plus(s.times(x));
    S::law_minus(t0.times(t1), t2.times(t3));
    S::law_times_associates(t, y, y);
    S::law_plus_commutes(t.times(y.times(y)), c);
    S::law_times_associates(t, z, z);
    S::law_plus_commutes(t.times(z.times(z)), c);
    let t4 = c.plus(t.times(z.times(z)));
    lemma_distributes_right(c, t.times(y.times(y)), t4);
    S::law_distributes(c, c, t.times(z.times(z)));
    S::law_distributes(t.times(y.times(y)), c, t.times(z.times(z)));
    S::law_times_associates(t, y.times(y), c);
    S::law_times_associates(y, y, c);
    S::law_times_commutes(y, c);
    lemma_swap_factors(y, c, y);
    lemma_swap_factors(t, c, y.times(y));
    S::law_times_associates(t, y.times(y), t.times(z.times(z)));
    S::law_times_associates(y, y, t.times(z.times(z)));
    lemma_swap_factors(y, t, z.times(z));
    lemma_swap_factors(y, t, y.times(z.times(z)));
    let t5 = c.times(t.times(z.times(z)));
    let t6 = c.times(t.times(y.times(y)));
    let t7 = y.times(y.times(z.times(z)));
    let t8 = t6.plus(t.times(t.times(t7)));
    S::law_plus_associates(c.times(c), t5, t8);
    lemma_swap_terms(t5, t6, t.times(t.times(t7)));
    S::law_minus(t.times(y).times(z), s.times(x));
    S::law_times_associates(t, y, z);
    S::law_plus_commutes(t.times(y.times(z)), s.times(x).negated());
    S::law_plus_commutes(t.times(y.times(z)), s.times(x));
    let t9 = s.times(x).plus(t.times(y.times(z)));
    lemma_distributes_right(s.times(x).negated(), t.times(y.times(z)), t9);
    S::law_distributes(s.times(x).negated(), s.times(x), t.times(y.times(z)));
    lemma_negated_times(s.times(x), s.times(x));
    S::law_times_associates(s, x, s.times(x));
    lemma_swap_factors(x, s, x);
    lemma_negated_times(s.times(x), t.times(y.times(z)));
    S::law_times_associates(s, x, t.times(y.times(z)));
    lemma_swap_factors(x, t, y.times(z));
    S::law_distributes(t.times(y.times(z)), s.times(x), t.times(y.times(z)));
    S::law_times_associates(t, y.times(z), s.times(x));
    S::law_times_associates(y, z, s.times(x));
    lemma_swap_factors(z, s, x);
    S::law_times_commutes(z, x);
    lemma_swap_factors(y, s, x.times(z));
    lemma_swap_factors(y, x, z);
    lemma_swap_factors(t, s, x.times(y.times(z)));
    S::law_times_associates(t, y.times(z), t.times(y.times(z)));
    S::law_times_associates(y, z, t.times(y.times(z)));
    lemma_swap_factors(z, t, y.times(z));
    lemma_swap_factors(z, y, z);
    lemma_swap_factors(y, t, y.times(z.times(z)));
    let t10 = s.times(s.times(x.times(x)));
    let t11 = t.times(x.times(y.times(z)));
    let t12 = s.times(t11).plus(t.times(t.times(t7)));
    S::law_plus_associates(t10.negated(), s.times(t11).negated(), t12);
    lemma_cancels_front(s.times(t11), t.times(t.times(t7)));
    lemma_negated_sum(t10.negated(), t.times(t.times(t7)));
    lemma_negated_twice(t10);
    let t13 = t5.plus(t.times(t.times(t7)));
    let t14 = t.times(t.times(t7)).negated();
    S::law_plus_associates(c.times(c), t6.plus(t13), t10.plus(t14));
    S::law_plus_associates(t6, t13, t10.plus(t14));
    S::law_plus_associates(t5, t.times(t.times(t7)), t10.plus(t14));
    lemma_swap_terms(t.times(t.times(t7)), t10, t14);
    S::law_plus_negated(t.times(t.times(t7)));
    S::law_plus_zero(t10);
    let t15 = c.times(c).plus(t6.plus(t5.plus(t10)));
    lemma_distributes_right(c, t.times(x.times(x)), t15);
    S::law_distributes(c, c.times(c), t6.plus(t5.plus(t10)));
    S::law_distributes(c, t6, t5.plus(t10));
    S::law_distributes(c, t5, t10);
    S::law_distributes(t.times(x.times(x)), c.times(c), t6.plus(t5.plus(t10)));
    S::law_times_associates(t, x.times(x), c.times(c));
    S::law_times_associates(x, x, c.times(c));
    lemma_swap_factors(x, c, c);
    S::law_times_commutes(x, c);
    lemma_swap_factors(x, c, c.times(x));
    lemma_swap_factors(x, c, x);
    lemma_swap_factors(t, c, c.times(x.times(x)));
    lemma_swap_factors(t, c, x.times(x));
    S::law_distributes(t.times(x.times(x)), t6, t5.plus(t10));
    S::law_times_associates(t, x.times(x), t6);
    S::law_times_associates(x, x, t6);
    lemma_swap_factors(x, c, t.times(y.times(y)));
    lemma_swap_factors(x, t, y.times(y));
    let t16 = t.times(x.times(y.times(y)));
    lemma_swap_factors(x, c, t16);
    lemma_swap_factors(x, t, x.times(y.times(y)));
    let t17 = x.times(x.times(y.times(y)));
    lemma_swap_factors(t, c, t.times(t17));
    S::law_distributes(t.times(x.times(x)), t5, t10);
    S::law_times_associates(t, x.times(x), t5);
    S::law_times_associates(x, x, t5);
    lemma_swap_factors(x, c, t.times(z.times(z)));
    lemma_swap_factors(x, t, z.times(z));
    let t18 = t.times(x.times(z.times(z)));
    lemma_swap_factors(x, c, t18);
    lemma_swap_factors(x, t, x.times(z.times(z)));
    let t19 = x.times(x.times(z.times(z)));
    lemma_swap_factors(t, c, t.times(t19));
    S::law_times_associates(t, x.times(x), t10);
    S::law_times_associates(x, x, t10);
    lemma_swap_factors(x, s, s.times(x.times(x)));
    lemma_swap_factors(x, s, x.times(x));
    let t20 = s.times(x.times(x.times(x)));
    lemma_swap_factors(x, s, t20);
    lemma_swap_factors(x, s, x.times(x.times(x)));
    let t21 = x.times(x.times(x.times(x)));
    lemma_swap_factors(t, s, s.times(t21));
    lemma_swap_factors(t, s, t21);
    let t22 = c.times(t5).plus(c.times(t10));
    let t23 = c.times(t.times(x.times(x)));
    let t24 = c.times(t.times(t.times(t17)));
    let t25 = c.times(t.times(t.times(t19)));
    let t26 = s.times(s.times(t.times(t21)));
    let t27 = c.times(t23).plus(t24.plus(t25.plus(t26)));
    S::law_plus_associates(c.times(c.times(c)), c.times(t6).plus(t22), t27);
    S::law_plus_associates(c.times(t6), t22, t27);
    S::law_plus_associates(c.times(t5), c.times(t10), t27);
    lemma_swap_terms(c.times(t10), c.times(t23), t24.plus(t25.plus(t26)));
    let t28 = c.times(t10).plus(t24.plus(t25.plus(t26)));
    lemma_swap_terms(c.times(t5), c.times(t23), t28);
    lemma_swap_terms(c.times(t6), c.times(t23), c.times(t5).plus(t28));
    S::law_minus(t.times(x).times(y), s.times(z));
    S::law_times_associates(t, x, y);
    S::law_plus_commutes(t.times(x.times(y)), s.times(z).negated());
    let t29 = t.times(x).times(z).minus(s.times(y));
    let t30 = t.times(x).times(y).plus(s.times(z));
    S::law_minus(t2.times(t29), t30.times(t1));
    S::law_minus(t.times(x).times(z), s.times(y));
    S::law_times_associates(t, x, z);
    S::law_plus_commutes(t.times(x.times(z)), s.times(y).negated());
    let t31 = s.times(y).negated().plus(t.times(x.times(z)));
    lemma_distributes_right(s.times(x).negated(), t.times(y.times(z)), t31);
    S::law_distributes(s.times(x).negated(), s.times(y).negated(), t.times(x.times(z)));
    lemma_negated_times(s.times(x), s.times(y).negated());
    lemma_times_negated(s.times(x), s.times(y));
    let t32 = s.times(x).times(s.times(y));
    lemma_negated_twice(t32);
    S::law_times_associates(s, x, s.times(y));
    lemma_swap_factors(x, s, y);
    lemma_negated_times(s.times(x), t.times(x.times(z)));
    S::law_times_associates(s, x, t.times(x.times(z)));
    lemma_swap_factors(x, t, x.times(z));
    S::law_distributes(t.times(y.times(z)), s.times(y).negated(), t.times(x.times(z)));
    lemma_times_negated(t.times(y.times(z)), s.times(y));
    S::law_times_associates(t, y.times(z), s.times(y));
    S::law_times_associates(y, z, s.times(y));
    lemma_swap_factors(z, s, y);
    S::law_times_commutes(z, y);
    lemma_swap_factors(y, s, y.times(z));
    lemma_swap_factors(t, s, y.times(y.times(z)));
    S::law_times_associates(t, y.times(z), t.times(x.times(z)));
    S::law_times_associates(y, z, t.times(x.times(z)));
    lemma_swap_factors(z, t, x.times(z));
    lemma_swap_factors(z, x, z);
    lemma_swap_factors(y, t, x.times(z.times(z)));
    lemma_swap_factors(y, x, z.times(z));
    let t33 = s.times(s.times(x.times(y)));
    let t34 = t.times(x.times(x.times(z)));
    let t35 = t.times(y.times(y.times(z)));
    let t36 = x.times(y.times(z.times(z)));
    let t37 = s.times(t35).negated().plus(t.times(t.times(t36)));
    S::law_plus_associates(t33, s.times(t34).negated(), t37);
    S::law_plus_commutes(t.times(x.times(y)), s.times(z));
    lemma_distributes_right(s.times(z), t.times(x.times(y)), t4);
    S::law_distributes(s.times(z), c, t.times(z.times(z)));
    S::law_times_associates(s, z, c);
    S::law_times_commutes(z, c);
    lemma_swap_factors(s, c, z);
    S::law_times_associates(s, z, t.times(z.times(z)));
    lemma_swap_factors(z, t, z.times(z));
    S::law_distributes(t.times(x.times(y)), c, t.times(z.times(z)));
    S::law_times_associates(t, x.times(y), c);
    S::law_times_associates(x, y, c);
    S::law_times_commutes(y, c);
    lemma_swap_factors(x, c, y);
    lemma_swap_factors(t, c, x.times(y));
    S::law_times_associates(t, x.times(y), t.times(z.times(z)));
    S::law_times_associates(x, y, t.times(z.times(z)));
    lemma_swap_factors(y, t, z.times(z));
    lemma_swap_factors(x, t, y.times(z.times(z)));
    let t38 = t.times(z.times(z.times(z)));
    let t39 = c.times(t.times(x.times(y)));
    let t40 = t39.plus(t.times(t.times(t36)));
    S::law_plus_associates(c.times(s.times(z)), s.times(t38), t40);
    lemma_swap_terms(s.times(t38), t39, t.times(t.times(t36)));
    let t41 = s.times(t38).plus(t.times(t.times(t36)));
    lemma_negated_sum(c.times(s.times(z)), t39.plus(t41));
    lemma_negated_sum(t39, t41);
    lemma_negated_sum(s.times(t38), t.times(t.times(t36)));
    let t42 = s.times(t34).negated().plus(t37);
    let t43 = c.times(s.times(z)).negated();
    let t44 = t.times(t.times(t36)).negated();
    let t45 = s.times(t38).negated().plus(t44);
    let t46 = t43.plus(t39.negated().plus(t45));
    S::law_plus_associates(t33, t42, t46);
    S::law_plus_associates(s.times(t34).negated(), t37, t46);
    S::law_plus_associates(s.times(t35).negated(), t.times(t.times(t36)), t46);
    lemma_swap_terms(t.times(t.times(t36)), t43, t39.negated().plus(t45));
    lemma_swap_terms(t.times(t.times(t36)), t39.negated(), t45);
    lemma_swap_terms(t.times(t.times(t36)), s.times(t38).negated(), t44);
    S::law_plus_negated(t.times(t.times(t36)));
    S::law_plus_zero(s.times(t38).negated());
    let t47 = t39.negated().plus(s.times(t38).negated());
    lemma_swap_terms(s.times(t35).negated(), t43, t47);
    lemma_swap_terms(s.times(t35).negated(), t39.negated(), s.times(t38).negated());
    let t48 = s.times(t35).negated().plus(s.times(t38).negated());
    lemma_swap_terms(s.times(t34).negated(), t43, t39.negated().plus(t48));
    lemma_swap_terms(s.times(t34).negated(), t39.negated(), t48);
    let t49 = s.times(t34).negated().plus(t48);
    lemma_swap_terms(t33, t43, t39.negated().plus(t49));
    lemma_swap_terms(t33, t39.negated(), t49);
    let t50 = t39.negated().plus(t33.plus(t49));
    lemma_distributes_right(s.times(z).negated(), t.times(x.times(y)), t43.plus(t50));
    S::law_distributes(s.times(z).negated(), t43, t50);
    lemma_negated_times(s.times(z), t43);
    lemma_times_negated(s.times(z), c.times(s.times(z)));
    let t51 = s.times(z).times(c.times(s.times(z)));
    lemma_negated_twice(t51);
    S::law_times_associates(s, z, c.times(s.times(z)));
    lemma_swap_factors(z, c, s.times(z));
    lemma_swap_factors(z, s, z);
    lemma_swap_factors(s, c, s.times(z.times(z)));
    S::law_distributes(s.times(z).negated(), t39.negated(), t33.plus(t49));
    lemma_negated_times(s.times(z), t39.negated());
    lemma_times_negated(s.times(z), t39);
    lemma_negated_twice(s.times(z).times(t39));
    S::law_times_associates(s, z, t39);
    lemma_swap_factors(z, c, t.times(x.times(y)));
    lemma_swap_factors(z, t, x.times(y));
    lemma_swap_factors(z, x, y);
    S::law_times_commutes(z, y);
    lemma_swap_factors(s, c, t11);
    S::law_distributes(s.times(z).negated(), t33, t49);
    lemma_negated_times(s.times(z), t33);
    S::law_times_associates(s, z, t33);
    lemma_swap_factors(z, s, s.times(x.times(y)));
    lemma_swap_factors(z, s, x.times(y));
    lemma_swap_factors(z, x, y);
    S::law_times_commutes(z, y);
    S::law_distributes(s.times(z).negated(), s.times(t34).negated(), t48);
    lemma_negated_times(s.times(z), s.times(t34).negated());
    lemma_times_negated(s.times(z), s.times(t34));
    let t52 = s.times(z).times(s.times(t34));
    lemma_negated_twice(t52);
    S::law_times_associates(s, z, s.times(t34));
    lemma_swap_factors(z, s, t34);
    lemma_swap_factors(z, t, x.times(x.times(z)));
    lemma_swap_factors(z, x, x.times(z));
    lemma_swap_factors(z, x, z);
    S::law_distributes(s.times(z).negated(), s.times(t35).negated(), s.times(t38).negated());
    lemma_negated_times(s.times(z), s.times(t35).negated());
    lemma_times_negated(s.times(z), s.times(t35));
    let t53 = s.times(z).times(s.times(t35));
    lemma_negated_twice(t53);
    S::law_times_associates(s, z, s.times(t35));
    lemma_swap_factors(z, s, t35);
    lemma_swap_factors(z, t, y.times(y.times(z)));
    lemma_swap_factors(z, y, y.times(z));
    lemma_swap_factors(z, y, z);
    lemma_negated_times(s.times(z), s.times(t38).negated());
    lemma_times_negated(s.times(z), s.times(t38));
    let t54 = s.times(z).times(s.times(t38));
    lemma_negated_twice(t54);
    S::law_times_associates(s, z, s.times(t38));
    lemma_swap_factors(z, s, t38);
    lemma_swap_factors(z, t, z.times(z.times(z)));
    S::law_distributes(t.times(x.times(y)), t43, t50);
    lemma_times_negated(t.times(x.times(y)), c.times(s.times(z)));
    S::law_times_associates(t, x.times(y), c.times(s.times(z)));
    S::law_times_associates(x, y, c.times(s.times(z)));
    lemma_swap_factors(y, c, s.times(z));
    lemma_swap_factors(y, s, z);
    lemma_swap_factors(x, c, s.times(y.times(z)));
    lemma_swap_factors(x, s, y.times(z));
    let t55 = s.times(x.times(y.times(z)));
    lemma_swap_factors(t, c, t55);
    lemma_swap_factors(t, s, x.times(y.times(z)));
    S::law_distributes(t.times(x.times(y)), t39.negated(), t33.plus(t49));
    lemma_times_negated(t.times(x.times(y)), t39);
    S::law_times_associates(t, x.times(y), t39);
    S::law_times_associates(x, y, t39);
    lemma_swap_factors(y, c, t.times(x.times(y)));
    lemma_swap_factors(y, t, x.times(y));
    lemma_swap_factors(y, x, y);
    lemma_swap_factors(x, c, t16);
    lemma_swap_factors(x, t, x.times(y.times(y)));
    lemma_swap_factors(t, c, t.times(t17));
    S::law_distributes(t.times(x.times(y)), t33, t49);
    S::law_times_associates(t, x.times(y), t33);
    S::law_times_associates(x, y, t33);
    lemma_swap_factors(y, s, s.times(x.times(y)));
    lemma_swap_factors(y, s, x.times(y));
    lemma_swap_factors(y, x, y);
    let t56 = s.times(x.times(y.times(y)));
    lemma_swap_factors(x, s, t56);
    lemma_swap_factors(x, s, x.times(y.times(y)));
    lemma_swap_factors(t, s, s.times(t17));
    lemma_swap_factors(t, s, t17);
    S::law_distributes(t.times(x.times(y)), s.times(t34).negated(), t48);
    lemma_times_negated(t.times(x.times(y)), s.times(t34));
    S::law_times_associates(t, x.times(y), s.times(t34));
    S::law_times_associates(x, y, s.times(t34));
    lemma_swap_factors(y, s, t34);
    lemma_swap_factors(y, t, x.times(x.times(z)));
    lemma_swap_factors(y, x, x.times(z));
    lemma_swap_factors(y, x, z);
    let t57 = x.times(x.times(y.times(z)));
    lemma_swap_factors(x, s, t.times(t57));
    lemma_swap_factors(x, t, t57);
    lemma_swap_factors(t, s, t.times(x.times(t57)));
    S::law_distributes(t.times(x.times(y)), s.times(t35).negated(), s.times(t38).negated());
    lemma_times_negated(t.times(x.times(y)), s.times(t35));
    S::law_times_associates(t, x.times(y), s.times(t35));
    S::law_times_associates(x, y, s.times(t35));
    lemma_swap_factors(y, s, t35);
    lemma_swap_factors(y, t, y.times(y.times(z)));
    let t58 = y.times(y.times(y.times(z)));
    lemma_swap_factors(x, s, t.times(t58));
    lemma_swap_factors(x, t, t58);
    lemma_swap_factors(t, s, t.times(x.times(t58)));
    lemma_times_negated(t.times(x.times(y)), s.times(t38));
    S::law_times_associates(t, x.times(y), s.times(t38));
    S::law_times_associates(x, y, s.times(t38));
    lemma_swap_factors(y, s, t38);
    lemma_swap_factors(y, t, z.times(z.times(z)));
    let t59 = y.times(z.times(z.times(z)));
    lemma_swap_factors(x, s, t.times(t59));
    lemma_swap_factors(x, t, t59);
    lemma_swap_factors(t, s, t.times(x.times(t59)));
    let t60 = s.times(s.times(z.times(z)));
    let t61 = s.times(s.times(t55)).negated();
    let t62 = s.times(s.times(t.times(t19)));
    let t63 = s.times(s.times(t.times(t7)));
    let t64 = z.times(z.times(z.times(z)));
    let t65 = s.times(s.times(t.times(t64)));
    let t66 = t61.plus(t62.plus(t63.plus(t65)));
    let t67 = c.times(s.times(t11)).plus(t66);
    let t68 = c.times(s.times(t11)).negated();
    let t69 = s.times(s.times(t.times(t17)));
    let t70 = t.times(t.times(x.times(t57)));
    let t71 = t.times(t.times(x.times(t58)));
    let t72 = t.times(t.times(x.times(t59)));
    let t73 = s.times(t71).negated().plus(s.times(t72).negated());
    let t74 = s.times(t70).negated().plus(t73);
    let t75 = t24.negated().plus(t69.plus(t74));
    S::law_plus_associates(c.times(t60), t67, t68.plus(t75));
    S::law_plus_associates(c.times(s.times(t11)), t66, t68.plus(t75));
    S::law_plus_associates(t61, t62.plus(t63.plus(t65)), t68.plus(t75));
    S::law_plus_associates(t62, t63.plus(t65), t68.plus(t75));
    S::law_plus_associates(t63, t65, t68.plus(t75));
    lemma_swap_terms(t65, t68, t75);
    lemma_swap_terms(t65, t24.negated(), t69.plus(t74));
    lemma_swap_terms(t65, t69, t74);
    let t76 = t24.negated().plus(t69.plus(t65.plus(t74)));
    lemma_swap_terms(t63, t68, t76);
    lemma_swap_terms(t63, t24.negated(), t69.plus(t65.plus(t74)));
    lemma_swap_terms(t63, t69, t65.plus(t74));
    let t77 = t69.plus(t63.plus(t65.plus(t74)));
    lemma_swap_terms(t62, t68, t24.negated().plus(t77));
    lemma_swap_terms(t62, t24.negated(), t77);
    lemma_swap_terms(t62, t69, t63.plus(t65.plus(t74)));
    let t78 = t62.plus(t63.plus(t65.plus(t74)));
    let t79 = t24.negated().plus(t69.plus(t78));
    lemma_swap_terms(t61, t68, t79);
    lemma_cancels_front(c.times(s.times(t11)), t61.plus(t79));
    let t80 = c.times(t6).plus(c.times(t5).plus(t28));
    let t81 = c.times(t60).plus(t61.plus(t79));
    S::law_plus_associates(c.times(c.times(c)), c.times(t23).plus(t80), t81);
    S::law_plus_associates(c.times(t23), t80, t81);
    S::law_plus_associates(c.times(t6), c.times(t5).plus(t28), t81);
    S::law_plus_associates(c.times(t5), t28, t81);
    S::law_plus_associates(c.times(t10), t24.plus(t25.plus(t26)), t81);
    S::law_plus_associates(t24, t25.plus(t26), t81);
    S::law_plus_associates(t25, t26, t81);
    lemma_swap_terms(t26, c.times(t60), t61.plus(t79));
    lemma_swap_terms(t26, t61, t79);
    lemma_swap_terms(t26, t24.negated(), t69.plus(t78));
    let t82 = t24.negated().plus(t26.plus(t69.plus(t78)));
    lemma_swap_terms(t25, c.times(t60), t61.plus(t82));
    lemma_swap_terms(t25, t61, t82);
    lemma_swap_terms(t25, t24.negated(), t26.plus(t69.plus(t78)));
    let t83 = t25.plus(t26.plus(t69.plus(t78)));
    let t84 = t61.plus(t24.negated().plus(t83));
    lemma_swap_terms(t24, c.times(t60), t84);
    lemma_swap_terms(t24, t61, t24.negated().plus(t83));
    lemma_cancels_front(t24, t83);
    S::law_plus_commutes(t.times(x.times(z)), s.times(y));
    S::law_minus(t30.times(t3), t0.times(t29));
    lemma_distributes_right(s.times(z), t.times(x.times(y)), t9);
    S::law_distributes(s.times(z), s.times(x), t.times(y.times(z)));
    S::law_times_associates(s, z, s.times(x));
    lemma_swap_factors(z, s, x);
    S::law_times_commutes(z, x);
    S::law_times_associates(s, z, t.times(y.times(z)));
    lemma_swap_factors(z, t, y.times(z));
    lemma_swap_factors(z, y, z);
    S::law_distributes(t.times(x.times(y)), s.times(x), t.times(y.times(z)));
    S::law_times_associates(t, x.times(y), s.times(x));
    S::law_times_associates(x, y, s.times(x));
    lemma_swap_factors(y, s, x);
    S::law_times_commutes(y, x);
    lemma_swap_factors(x, s, x.times(y));
    lemma_swap_factors(t, s, x.times(x.times(y)));
    S::law_times_associates(t, x.times(y), t.times(y.times(z)));
    S::law_times_associates(x, y, t.times(y.times(z)));
    lemma_swap_factors(y, t, y.times(z));
    lemma_swap_factors(x, t, y.times(y.times(z)));
    let t85 = s.times(s.times(x.times(z)));
    let t86 = t.times(y.times(z.times(z)));
    let t87 = t.times(x.times(x.times(y)));
    let t88 = x.times(y.times(y.times(z)));
    let t89 = s.times(t87).plus(t.times(t.times(t88)));
    S::law_plus_associates(t85, s.times(t86), t89);
    lemma_swap_terms(s.times(t86), s.times(t87), t.times(t.times(t88)));
    lemma_distributes_right(c, t.times(y.times(y)), t31);
    S::law_distributes(c, s.times(y).negated(), t.times(x.times(z)));
    lemma_times_negated(c, s.times(y));
    S::law_distributes(t.times(y.times(y)), s.times(y).negated(), t.times(x.times(z)));
    lemma_times_negated(t.times(y.times(y)), s.times(y));
    S::law_times_associates(t, y.times(y), s.times(y));
    S::law_times_associates(y, y, s.times(y));
    lemma_swap_factors(y, s, y);
    lemma_swap_factors(y, s, y.times(y));
    lemma_swap_factors(t, s, y.times(y.times(y)));
    S::law_times_associates(t, y.times(y), t.times(x.times(z)));
    S::law_times_associates(y, y, t.times(x.times(z)));
    lemma_swap_factors(y, t, x.times(z));
    lemma_swap_factors(y, x, z);
    lemma_swap_factors(y, t, x.times(y.times(z)));
    lemma_swap_factors(y, x, y.times(z));
    let t90 = c.times(s.times(y)).negated();
    let t91 = c.times(t.times(x.times(z)));
    let t92 = t.times(y.times(y.times(y)));
    let t93 = s.times(t92).negated().plus(t.times(t.times(t88)));
    S::law_plus_associates(t90, t91, t93);
    lemma_negated_sum(t90, t91.plus(t93));
    lemma_negated_twice(c.times(s.times(y)));
    lemma_negated_sum(t91, t93);
    lemma_negated_sum(s.times(t92).negated(), t.times(t.times(t88)));
    lemma_negated_twice(s.times(t92));
    let t94 = s.times(t86).plus(t.times(t.times(t88)));
    let t95 = t.times(t.times(t88)).negated();
    let t96 = t91.negated().plus(s.times(t92).plus(t95));
    let t97 = c.times(s.times(y)).plus(t96);
    S::law_plus_associates(t85, s.times(t87).plus(t94), t97);
    S::law_plus_associates(s.times(t87), t94, t97);
    S::law_plus_associates(s.times(t86), t.times(t.times(t88)), t97);
    lemma_swap_terms(t.times(t.times(t88)), c.times(s.times(y)), t96);
    lemma_swap_terms(t.times(t.times(t88)), t91.negated(), s.times(t92).plus(t95));
    lemma_swap_terms(t.times(t.times(t88)), s.times(t92), t95);
    S::law_plus_negated(t.times(t.times(t88)));
    S::law_plus_zero(s.times(t92));
    let t98 = t91.negated().plus(s.times(t92));
    lemma_swap_terms(s.times(t86), c.times(s.times(y)), t98);
    lemma_swap_terms(s.times(t86), t91.negated(), s.times(t92));
    S::law_plus_commutes(s.times(t86), s.times(t92));
    let t99 = s.times(t92).plus(s.times(t86));
    lemma_swap_terms(s.times(t87), c.times(s.times(y)), t91.negated().plus(t99));
    lemma_swap_terms(s.times(t87), t91.negated(), t99);
    let t100 = t91.negated().plus(s.times(t87).plus(t99));
    lemma_swap_terms(t85, c.times(s.times(y)), t100);
    lemma_swap_terms(t85, t91.negated(), s.times(t87).plus(t99));
    let t101 = t85.plus(s.times(t87).plus(t99));
    let t102 = c.times(s.times(y)).plus(t91.negated().plus(t101));
    lemma_distributes_right(s.times(y), t.times(x.times(z)), t102);
    S::law_distributes(s.times(y), c.times(s.times(y)), t91.negated().plus(t101));
    S::law_times_associates(s, y, c.times(s.times(y)));
    lemma_swap_factors(y, c, s.times(y));
    lemma_swap_factors(y, s, y);
    lemma_swap_factors(s, c, s.times(y.times(y)));
    S::law_distributes(s.times(y), t91.negated(), t101);
    lemma_times_negated(s.times(y), t91);
    S::law_times_associates(s, y, t91);
    lemma_swap_factors(y, c, t.times(x.times(z)));
    lemma_swap_factors(y, t, x.times(z));
    lemma_swap_factors(y, x, z);
    lemma_swap_factors(s, c, t11);
    S::law_distributes(s.times(y), t85, s.times(t87).plus(t99));
    S::law_times_associates(s, y, t85);
    lemma_swap_factors(y, s, s.times(x.times(z)));
    lemma_swap_factors(y, s, x.times(z));
    lemma_swap_factors(y, x, z);
    S::law_distributes(s.times(y), s.times(t87), t99);
    S::law_times_associates(s, y, s.times(t87));
    lemma_swap_factors(y, s, t87);
    lemma_swap_factors(y, t, x.times(x.times(y)));
    lemma_swap_factors(y, x, x.times(y));
    lemma_swap_factors(y, x, y);
    S::law_distributes(s.times(y), s.times(t92), s.times(t86));
    S::law_times_associates(s, y, s.times(t92));
    lemma_swap_factors(y, s, t92);
    lemma_swap_factors(y, t, y.times(y.times(y)));
    S::law_times_associates(s, y, s.times(t86));
    lemma_swap_factors(y, s, t86);
    lemma_swap_factors(y, t, y.times(z.times(z)));
    S::law_distributes(t.times(x.times(z)), c.times(s.times(y)), t91.negated().plus(t101));
    S::law_times_associates(t, x.times(z), c.times(s.times(y)));
    S::law_times_associates(x, z, c.times(s.times(y)));
    lemma_swap_factors(z, c, s.times(y));
    lemma_swap_factors(z, s, y);
    S::law_times_commutes(z, y);
    lemma_swap_factors(x, c, s.times(y.times(z)));
    lemma_swap_factors(x, s, y.times(z));
    lemma_swap_factors(t, c, t55);
    lemma_swap_factors(t, s, x.times(y.times(z)));
    S::law_distributes(t.times(x.times(z)), t91.negated(), t101);
    lemma_times_negated(t.times(x.times(z)), t91);
    S::law_times_associates(t, x.times(z), t91);
    S::law_times_associates(x, z, t91);
    lemma_swap_factors(z, c, t.times(x.times(z)));
    lemma_swap_factors(z, t, x.times(z));
    lemma_swap_factors(z, x, z);
    lemma_swap_factors(x, c, t18);
    lemma_swap_factors(x, t, x.times(z.times(z)));
    lemma_swap_factors(t, c, t.times(t19));
    S::law_distributes(t.times(x.times(z)), t85, s.times(t87).plus(t99));
    S::law_times_associates(t, x.times(z), t85);
    S::law_times_associates(x, z, t85);
    lemma_swap_factors(z, s, s.times(x.times(z)));
    lemma_swap_factors(z, s, x.times(z));
    lemma_swap_factors(z, x, z);
    let t103 = s.times(x.times(z.times(z)));
    lemma_swap_factors(x, s, t103);
    lemma_swap_factors(x, s, x.times(z.times(z)));
    lemma_swap_factors(t, s, s.times(t19));
    lemma_swap_factors(t, s, t19);
    S::law_distributes(t.times(x.times(z)), s.times(t87), t99);
    S::law_times_associates(t, x.times(z), s.times(t87));
    S::law_times_associates(x, z, s.times(t87));
    lemma_swap_factors(z, s, t87);
    lemma_swap_factors(z, t, x.times(x.times(y)));
    lemma_swap_factors(z, x, x.times(y));
    lemma_swap_factors(z, x, y);
    S::law_times_commutes(z, y);
    lemma_swap_factors(x, s, t.times(t57));
    lemma_swap_factors(x, t, t57);
    lemma_swap_factors(t, s, t.times(x.times(t57)));
    S::law_distributes(t.times(x.times(z)), s.times(t92), s.times(t86));
    S::law_times_associates(t, x.times(z), s.times(t92));
    S::law_times_associates(x, z, s.times(t92));
    lemma_swap_factors(z, s, t92);
    lemma_swap_factors(z, t, y.times(y.times(y)));
    lemma_swap_factors(z, y, y.times(y));
    lemma_swap_factors(z, y, y);
    S::law_times_commutes(z, y);
    lemma_swap_factors(x, s, t.times(t58));
    lemma_swap_factors(x, t, t58);
    lemma_swap_factors(t, s, t.times(x.times(t58)));
    S::law_times_associates(t, x.times(z), s.times(t86));
    S::law_times_associates(x, z, s.times(t86));
    lemma_swap_factors(z, s, t86);
    lemma_swap_factors(z, t, y.times(z.times(z)));
    lemma_swap_factors(z, y, z.times(z));
    lemma_swap_factors(x, s, t.times(t59));
    lemma_swap_factors(x, t, t59);
    lemma_swap_factors(t, s, t.times(x.times(t59)));
    let t104 = s.times(s.times(y.times(y)));
    let t105 = y.times(y.times(y.times(y)));
    let t106 = s.times(s.times(t.times(t105)));
    let t107 = s.times(s.times(t55)).plus(t69.plus(t106.plus(t63)));
    let t108 = s.times(t71).plus(s.times(t72));
    let t109 = t62.plus(s.times(t70).plus(t108));
    let t110 = c.times(s.times(t11)).plus(t25.negated().plus(t109));
    S::law_plus_associates(c.times(t104), t68.plus(t107), t110);
    S::law_plus_associates(t68, t107, t110);
    S::law_plus_associates(s.times(s.times(t55)), t69.plus(t106.plus(t63)), t110);
    S::law_plus_associates(t69, t106.plus(t63), t110);
    S::law_plus_associates(t106, t63, t110);
    lemma_swap_terms(t63, c.times(s.times(t11)), t25.negated().plus(t109));
    lemma_swap_terms(t63, t25.negated(), t109);
    lemma_swap_terms(t63, t62, s.times(t70).plus(t108));
    let t111 = t63.plus(s.times(t70).plus(t108));
    let t112 = t25.negated().plus(t62.plus(t111));
    lemma_swap_terms(t106, c.times(s.times(t11)), t112);
    lemma_swap_terms(t106, t25.negated(), t62.plus(t111));
    lemma_swap_terms(t106, t62, t111);
    let t113 = t62.plus(t106.plus(t111));
    lemma_swap_terms(t69, c.times(s.times(t11)), t25.negated().plus(t113));
    lemma_swap_terms(t69, t25.negated(), t113);
    let t114 = t25.negated().plus(t69.plus(t113));
    lemma_swap_terms(s.times(s.times(t55)), c.times(s.times(t11)), t114);
    let t115 = s.times(s.times(t55)).plus(t114);
    lemma_cancels_front(c.times(s.times(t11)), t115);
    let t116 = c.times(t60).plus(t61.plus(t83));
    let t117 = c.times(t5).plus(c.times(t10).plus(t116));
    let t118 = c.times(t23).plus(c.times(t6).plus(t117));
    S::law_plus_associates(c.times(c.times(c)), t118, c.times(t104).plus(t115));
    S::law_plus_associates(c.times(t23), c.times(t6).plus(t117), c.times(t104).plus(t115));
    S::law_plus_associates(c.times(t6), t117, c.times(t104).plus(t115));
    S::law_plus_associates(c.times(t5), c.times(t10).plus(t116), c.times(t104).plus(t115));
    S::law_plus_associates(c.times(t10), t116, c.times(t104).plus(t115));
    S::law_plus_associates(c.times(t60), t61.plus(t83), c.times(t104).plus(t115));
    S::law_plus_associates(t61, t83, c.times(t104).plus(t115));
    S::law_plus_associates(t25, t26.plus(t69.plus(t78)), c.times(t104).plus(t115));
    S::law_plus_associates(t26, t69.plus(t78), c.times(t104).plus(t115));
    S::law_plus_associates(t69, t78, c.times(t104).plus(t115));
    S::law_plus_associates(t62, t63.plus(t65.plus(t74)), c.times(t104).plus(t115));
    S::law_plus_associates(t63, t65.plus(t74), c.times(t104).plus(t115));
    S::law_plus_associates(t65, t74, c.times(t104).plus(t115));
    S::law_plus_associates(s.times(t70).negated(), t73, c.times(t104).plus(t115));
    S::law_plus_associates(
        s.times(t71).negated(),
        s.times(t72).negated(),
        c.times(t104).plus(t115),
    );
    lemma_swap_terms(s.times(t72).negated(), c.times(t104), t115);
    lemma_swap_terms(s.times(t72).negated(), s.times(s.times(t55)), t114);
    lemma_swap_terms(s.times(t72).negated(), t25.negated(), t69.plus(t113));
    lemma_swap_terms(s.times(t72).negated(), t69, t113);
    lemma_swap_terms(s.times(t72).negated(), t62, t106.plus(t111));
    lemma_swap_terms(s.times(t72).negated(), t106, t111);
    lemma_swap_terms(s.times(t72).negated(), t63, s.times(t70).plus(t108));
    lemma_swap_terms(s.times(t72).negated(), s.times(t70), t108);
    lemma_swap_terms(s.times(t72).negated(), s.times(t71), s.times(t72));
    lemma_negated_plus(s.times(t72));
    S::law_plus_zero(s.times(t71));
    let t119 = s.times(t70).plus(s.times(t71));
    let t120 = t106.plus(t63.plus(t119));
    let t121 = t25.negated().plus(t69.plus(t62.plus(t120)));
    let t122 = s.times(s.times(t55)).plus(t121);
    lemma_swap_terms(s.times(t71).negated(), c.times(t104), t122);
    lemma_swap_terms(s.times(t71).negated(), s.times(s.times(t55)), t121);
    lemma_swap_terms(s.times(t71).negated(), t25.negated(), t69.plus(t62.plus(t120)));
    lemma_swap_terms(s.times(t71).negated(), t69, t62.plus(t120));
    lemma_swap_terms(s.times(t71).negated(), t62, t120);
    lemma_swap_terms(s.times(t71).negated(), t106, t63.plus(t119));
    lemma_swap_terms(s.times(t71).negated(), t63, t119);
    lemma_swap_terms(s.times(t71).negated(), s.times(t70), s.times(t71));
    lemma_negated_plus(s.times(t71));
    S::law_plus_zero(s.times(t70));
    let t123 = t106.plus(t63.plus(s.times(t70)));
    let t124 = t25.negated().plus(t69.plus(t62.plus(t123)));
    let t125 = s.times(s.times(t55)).plus(t124);
    lemma_swap_terms(s.times(t70).negated(), c.times(t104), t125);
    lemma_swap_terms(s.times(t70).negated(), s.times(s.times(t55)), t124);
    lemma_swap_terms(s.times(t70).negated(), t25.negated(), t69.plus(t62.plus(t123)));
    lemma_swap_terms(s.times(t70).negated(), t69, t62.plus(t123));
    lemma_swap_terms(s.times(t70).negated(), t62, t123);
    lemma_swap_terms(s.times(t70).negated(), t106, t63.plus(s.times(t70)));
    lemma_swap_terms(s.times(t70).negated(), t63, s.times(t70));
    lemma_negated_plus(s.times(t70));
    S::law_plus_zero(t63);
    let t126 = t69.plus(t62.plus(t106.plus(t63)));
    let t127 = s.times(s.times(t55)).plus(t25.negated().plus(t126));
    lemma_swap_terms(t65, c.times(t104), t127);
    lemma_swap_terms(t65, s.times(s.times(t55)), t25.negated().plus(t126));
    lemma_swap_terms(t65, t25.negated(), t126);
    lemma_swap_terms(t65, t69, t62.plus(t106.plus(t63)));
    lemma_swap_terms(t65, t62, t106.plus(t63));
    lemma_swap_terms(t65, t106, t63);
    S::law_plus_commutes(t65, t63);
    let t128 = t62.plus(t106.plus(t63.plus(t65)));
    let t129 = t25.negated().plus(t69.plus(t128));
    let t130 = s.times(s.times(t55)).plus(t129);
    lemma_swap_terms(t63, c.times(t104), t130);
    lemma_swap_terms(t63, s.times(s.times(t55)), t129);
    lemma_swap_terms(t63, t25.negated(), t69.plus(t128));
    lemma_swap_terms(t63, t69, t128);
    lemma_swap_terms(t63, t62, t106.plus(t63.plus(t65)));
    lemma_swap_terms(t63, t106, t63.plus(t65));
    let t131 = t106.plus(t63.plus(t63.plus(t65)));
    let t132 = t25.negated().plus(t69.plus(t62.plus(t131)));
    let t133 = s.times(s.times(t55)).plus(t132);
    lemma_swap_terms(t62, c.times(t104), t133);
    lemma_swap_terms(t62, s.times(s.times(t55)), t132);
    lemma_swap_terms(t62, t25.negated(), t69.plus(t62.plus(t131)));
    lemma_swap_terms(t62, t69, t62.plus(t131));
    let t134 = t69.plus(t62.plus(t62.plus(t131)));
    let t135 = s.times(s.times(t55)).plus(t25.negated().plus(t134));
    lemma_swap_terms(t69, c.times(t104), t135);
    lemma_swap_terms(t69, s.times(s.times(t55)), t25.negated().plus(t134));
    lemma_swap_terms(t69, t25.negated(), t134);
    let t136 = t25.negated().plus(t69.plus(t134));
    let t137 = s.times(s.times(t55)).plus(t136);
    lemma_swap_terms(t26, c.times(t104), t137);
    lemma_swap_terms(t26, s.times(s.times(t55)), t136);
    lemma_swap_terms(t26, t25.negated(), t69.plus(t134));
    let t138 = t25.negated().plus(t26.plus(t69.plus(t134)));
    let t139 = s.times(s.times(t55)).plus(t138);
    lemma_swap_terms(t25, c.times(t104), t139);
    lemma_swap_terms(t25, s.times(s.times(t55)), t138);
    lemma_cancels_front(t25, t26.plus(t69.plus(t134)));
    let t140 = s.times(s.times(t55)).plus(t26.plus(t69.plus(t134)));
    lemma_swap_terms(t61, c.times(t104), t140);
    lemma_cancels_front(s.times(s.times(t55)), t26.plus(t69.plus(t134)));
    lemma_swap_terms(c.times(t60), c.times(t104), t26.plus(t69.plus(t134)));
    S::law_times_associates(c, c, t);
    S::law_times_associates(s, s, t);
    S::law_times_associates(c, s, s);
    S::law_plus_associates(c.times(c.times(t)), s.times(s.times(t)), c.times(s.times(s)));
    S::law_plus_commutes(s.times(s.times(t)), c.times(s.times(s)));
    S::law_times_associates(s, s.times(t), y);
    S::law_times_associates(s, t, y);
    S::law_times_associates(s, s.times(t.times(y)), y);
    S::law_times_associates(s, t.times(y), y);
    S::law_times_associates(t, y, y);
    let t141 = c.times(s.times(s)).plus(s.times(s.times(t)));
    let t142 = s.times(t.times(y.times(y)));
    S::law_plus_associates(c.times(c.times(t)), t141, s.times(t142));
    S::law_plus_associates(c.times(s.times(s)), s.times(s.times(t)), s.times(t142));
    S::law_times_associates(s, s.times(t), x);
    S::law_times_associates(s, t, x);
    S::law_times_associates(s, s.times(t.times(x)), x);
    S::law_times_associates(s, t.times(x), x);
    S::law_times_associates(t, x, x);
    let t143 = s.times(s.times(t)).plus(s.times(t142));
    let t144 = c.times(s.times(s)).plus(t143);
    let t145 = s.times(t.times(x.times(x)));
    S::law_plus_associates(c.times(c.times(t)), t144, s.times(t145));
    S::law_plus_associates(c.times(s.times(s)), t143, s.times(t145));
    S::law_plus_associates(s.times(s.times(t)), s.times(t142), s.times(t145));
    S::law_plus_commutes(s.times(t142), s.times(t145));
    S::law_times_associates(s, s.times(t), z);
    S::law_times_associates(s, t, z);
    S::law_times_associates(s, s.times(t.times(z)), z);
    S::law_times_associates(s, t.times(z), z);
    S::law_times_associates(t, z, z);
    let t146 = s.times(t145).plus(s.times(t142));
    let t147 = s.times(s.times(t)).plus(t146);
    let t148 = c.times(s.times(s)).plus(t147);
    let t149 = s.times(t.times(z.times(z)));
    S::law_plus_associates(c.times(c.times(t)), t148, s.times(t149));
    S::law_plus_associates(c.times(s.times(s)), t147, s.times(t149));
    S::law_plus_associates(s.times(s.times(t)), t146, s.times(t149));
    S::law_plus_associates(s.times(t145), s.times(t142), s.times(t149));
    let t150 = x.times(x).plus(y.times(y));
    S::law_minus(t150.plus(z.times(z)), S::one_value());
    S::law_plus_associates(x.times(x), y.times(y), z.times(z));
    let t151 = y.times(y).plus(z.times(z));
    S::law_plus_associates(x.times(x), t151, S::one_value().negated());
    S::law_plus_associates(y.times(y), z.times(z), S::one_value().negated());
    S::law_plus_commutes(z.times(z), S::one_value().negated());
    lemma_swap_terms(y.times(y), S::one_value().negated(), z.times(z));
    lemma_swap_terms(x.times(x), S::one_value().negated(), t151);
    let t152 = s.times(t142).plus(s.times(t149));
    let t153 = s.times(s.times(t)).plus(s.times(t145).plus(t152));
    let t154 = c.times(s.times(s)).plus(t153);
    let t155 = S::one_value().negated().plus(x.times(x).plus(t151));
    lemma_distributes_right(c.times(c.times(t)), t154, t155);
    S::law_distributes(c.times(c.times(t)), S::one_value().negated(), x.times(x).plus(t151));
    lemma_times_negated(c.times(c.times(t)), S::one_value());
    S::law_times_one(c.times(c.times(t)));
    S::law_distributes(c.times(c.times(t)), x.times(x), t151);
    S::law_times_associates(c, c.times(t), x.times(x));
    S::law_times_associates(c, t, x.times(x));
    S::law_distributes(c.times(c.times(t)), y.times(y), z.times(z));
    S::law_times_associates(c, c.times(t), y.times(y));
    S::law_times_associates(c, t, y.times(y));
    S::law_times_associates(c, c.times(t), z.times(z));
    S::law_times_associates(c, t, z.times(z));
    lemma_distributes_right(c.times(s.times(s)), t153, t155);
    S::law_distributes(c.times(s.times(s)), S::one_value().negated(), x.times(x).plus(t151));
    lemma_times_negated(c.times(s.times(s)), S::one_value());
    S::law_times_one(c.times(s.times(s)));
    S::law_distributes(c.times(s.times(s)), x.times(x), t151);
    S::law_times_associates(c, s.times(s), x.times(x));
    S::law_times_associates(s, s, x.times(x));
    S::law_distributes(c.times(s.times(s)), y.times(y), z.times(z));
    S::law_times_associates(c, s.times(s), y.times(y));
    S::law_times_associates(s, s, y.times(y));
    S::law_times_associates(c, s.times(s), z.times(z));
    S::law_times_associates(s, s, z.times(z));
    lemma_distributes_right(s.times(s.times(t)), s.times(t145).plus(t152), t155);
    S::law_distributes(s.times(s.times(t)), S::one_value().negated(), x.times(x).plus(t151));
    lemma_times_negated(s.times(s.times(t)), S::one_value());
    S::law_times_one(s.times(s.times(t)));
    S::law_distributes(s.times(s.times(t)), x.times(x), t151);
    S::law_times_associates(s, s.times(t), x.times(x));
    S::law_times_associates(s, t, x.times(x));
    S::law_distributes(s.times(s.times(t)), y.times(y), z.times(z));
    S::law_times_associates(s, s.times(t), y.times(y));
    S::law_times_associates(s, t, y.times(y));
    S::law_times_associates(s, s.times(t), z.times(z));
    S::law_times_associates(s, t, z.times(z));
    lemma_distributes_right(s.times(t145), t152, t155);
    S::law_distributes(s.times(t145), S::one_value().negated(), x.times(x).plus(t151));
    lemma_times_negated(s.times(t145), S::one_value());
    S::law_times_one(s.times(t145));
    S::law_distributes(s.times(t145), x.times(x), t151);
    S::law_times_associates(s, t145, x.times(x));
    S::law_times_associates(s, t.times(x.times(x)), x.times(x));
    S::law_times_associates(t, x.times(x), x.times(x));
    S::law_times_associates(x, x, x.times(x));
    S::law_distributes(s.times(t145), y.times(y), z.times(z));
    S::law_times_associates(s, t145, y.times(y));
    S::law_times_associates(s, t.times(x.times(x)), y.times(y));
    S::law_times_associates(t, x.times(x), y.times(y));
    S::law_times_associates(x, x, y.times(y));
    S::law_times_associates(s, t145, z.times(z));
    S::law_times_associates(s, t.times(x.times(x)), z.times(z));
    S::law_times_associates(t, x.times(x), z.times(z));
    S::law_times_associates(x, x, z.times(z));
    lemma_distributes_right(s.times(t142), s.times(t149), t155);
    S::law_distributes(s.times(t142), S::one_value().negated(), x.times(x).plus(t151));
    lemma_times_negated(s.times(t142), S::one_value());
    S::law_times_one(s.times(t142));
    S::law_distributes(s.times(t142), x.times(x), t151);
    S::law_times_associates(s, t142, x.times(x));
    S::law_times_associates(s, t.times(y.times(y)), x.times(x));
    S::law_times_associates(t, y.times(y), x.times(x));
    S::law_times_associates(y, y, x.times(x));
    lemma_swap_factors(y, x, x);
    S::law_times_commutes(y, x);
    lemma_swap_factors(y, x, x.times(y));
    lemma_swap_factors(y, x, y);
    S::law_distributes(s.times(t142), y.times(y), z.times(z));
    S::law_times_associates(s, t142, y.times(y));
    S::law_times_associates(s, t.times(y.times(y)), y.times(y));
    S::law_times_associates(t, y.times(y), y.times(y));
    S::law_times_associates(y, y, y.times(y));
    S::law_times_associates(s, t142, z.times(z));
    S::law_times_associates(s, t.times(y.times(y)), z.times(z));
    S::law_times_associates(t, y.times(y), z.times(z));
    S::law_times_associates(y, y, z.times(z));
    S::law_distributes(s.times(t149), S::one_value().negated(), x.times(x).plus(t151));
    lemma_times_negated(s.times(t149), S::one_value());
    S::law_times_one(s.times(t149));
    S::law_distributes(s.times(t149), x.times(x), t151);
    S::law_times_associates(s, t149, x.times(x));
    S::law_times_associates(s, t.times(z.times(z)), x.times(x));
    S::law_times_associates(t, z.times(z), x.times(x));
    S::law_times_associates(z, z, x.times(x));
    lemma_swap_factors(z, x, x);
    S::law_times_commutes(z, x);
    lemma_swap_factors(z, x, x.times(z));
    lemma_swap_factors(z, x, z);
    S::law_distributes(s.times(t149), y.times(y), z.times(z));
    S::law_times_associates(s, t149, y.times(y));
    S::law_times_associates(s, t.times(z.times(z)), y.times(y));
    S::law_times_associates(t, z.times(z), y.times(y));
    S::law_times_associates(z, z, y.times(y));
    lemma_swap_factors(z, y, y);
    S::law_times_commutes(z, y);
    lemma_swap_factors(z, y, y.times(z));
    lemma_swap_factors(z, y, z);
    S::law_times_associates(s, t149, z.times(z));
    S::law_times_associates(s, t.times(z.times(z)), z.times(z));
    S::law_times_associates(t, z.times(z), z.times(z));
    S::law_times_associates(z, z, z.times(z));
    let t156 = s.times(t149).negated().plus(t62.plus(t63.plus(t65)));
    S::law_plus_associates(s.times(t142).negated(), t69.plus(t106.plus(t63)), t156);
    S::law_plus_associates(t69, t106.plus(t63), t156);
    S::law_plus_associates(t106, t63, t156);
    lemma_swap_terms(t63, s.times(t149).negated(), t62.plus(t63.plus(t65)));
    lemma_swap_terms(t63, t62, t63.plus(t65));
    let t157 = t62.plus(t63.plus(t63.plus(t65)));
    lemma_swap_terms(t106, s.times(t149).negated(), t157);
    lemma_swap_terms(t106, t62, t63.plus(t63.plus(t65)));
    lemma_swap_terms(t69, s.times(t149).negated(), t62.plus(t131));
    let t158 = s.times(t149).negated().plus(t69.plus(t62.plus(t131)));
    let t159 = s.times(t142).negated().plus(t158);
    S::law_plus_associates(s.times(t145).negated(), t26.plus(t69.plus(t62)), t159);
    S::law_plus_associates(t26, t69.plus(t62), t159);
    S::law_plus_associates(t69, t62, t159);
    lemma_swap_terms(t62, s.times(t142).negated(), t158);
    lemma_swap_terms(t62, s.times(t149).negated(), t69.plus(t62.plus(t131)));
    lemma_swap_terms(t62, t69, t62.plus(t131));
    let t160 = s.times(t149).negated().plus(t134);
    lemma_swap_terms(t69, s.times(t142).negated(), t160);
    lemma_swap_terms(t69, s.times(t149).negated(), t134);
    let t161 = s.times(t149).negated().plus(t69.plus(t134));
    lemma_swap_terms(t26, s.times(t142).negated(), t161);
    lemma_swap_terms(t26, s.times(t149).negated(), t69.plus(t134));
    let t162 = s.times(s.times(t)).negated();
    let t163 = s.times(t149).negated().plus(t26.plus(t69.plus(t134)));
    let t164 = s.times(t142).negated().plus(t163);
    let t165 = s.times(t145).negated().plus(t164);
    S::law_plus_associates(t162, s.times(t145).plus(t152), t165);
    S::law_plus_associates(s.times(t145), t152, t165);
    S::law_plus_associates(s.times(t142), s.times(t149), t165);
    lemma_swap_terms(s.times(t149), s.times(t145).negated(), t164);
    lemma_swap_terms(s.times(t149), s.times(t142).negated(), t163);
    lemma_cancels_front(s.times(t149), t26.plus(t69.plus(t134)));
    let t166 = s.times(t142).negated().plus(t26.plus(t69.plus(t134)));
    lemma_swap_terms(s.times(t142), s.times(t145).negated(), t166);
    lemma_cancels_front(s.times(t142), t26.plus(t69.plus(t134)));
    lemma_cancels_front(s.times(t145), t26.plus(t69.plus(t134)));
    let t167 = c.times(s.times(s)).negated();
    let t168 = c.times(t104).plus(c.times(t60));
    let t169 = t162.plus(t26.plus(t69.plus(t134)));
    S::law_plus_associates(t167, c.times(t10).plus(t168), t169);
    S::law_plus_associates(c.times(t10), t168, t169);
    S::law_plus_associates(c.times(t104), c.times(t60), t169);
    lemma_swap_terms(c.times(t60), t162, t26.plus(t69.plus(t134)));
    let t170 = c.times(t60).plus(t26.plus(t69.plus(t134)));
    lemma_swap_terms(c.times(t104), t162, t170);
    lemma_swap_terms(c.times(t10), t162, c.times(t104).plus(t170));
    let t171 = c.times(c.times(t)).negated();
    let t172 = c.times(t6).plus(c.times(t5));
    let t173 = c.times(t10).plus(c.times(t104).plus(t170));
    let t174 = t167.plus(t162.plus(t173));
    S::law_plus_associates(t171, c.times(t23).plus(t172), t174);
    S::law_plus_associates(c.times(t23), t172, t174);
    S::law_plus_associates(c.times(t6), c.times(t5), t174);
    lemma_swap_terms(c.times(t5), t167, t162.plus(t173));
    lemma_swap_terms(c.times(t5), t162, t173);
    let t175 = t162.plus(c.times(t5).plus(t173));
    lemma_swap_terms(c.times(t6), t167, t175);
    lemma_swap_terms(c.times(t6), t162, c.times(t5).plus(t173));
    let t176 = c.times(t6).plus(c.times(t5).plus(t173));
    lemma_swap_terms(c.times(t23), t167, t162.plus(t176));
    lemma_swap_terms(c.times(t23), t162, t176);
    S::law_plus_commutes(t, c);
    let t177 = c.times(c).plus(s.times(s));
    S::law_minus(t177, S::one_value());
    S::law_plus_associates(c.times(c), s.times(s), S::one_value().negated());
    S::law_plus_commutes(s.times(s), S::one_value().negated());
    lemma_swap_terms(c.times(c), S::one_value().negated(), s.times(s));
    let t178 = S::one_value().negated().plus(t177);
    lemma_distributes_right(c, t, t178);
    S::law_distributes(c, S::one_value().negated(), t177);
    lemma_times_negated(c, S::one_value());
    S::law_times_one(c);
    S::law_distributes(c, c.times(c), s.times(s));
    S::law_distributes(t, S::one_value().negated(), t177);
    lemma_times_negated(t, S::one_value());
    S::law_times_one(t);
    S::law_distributes(t, c.times(c), s.times(s));
    lemma_swap_factors(t, c, c);
    S::law_times_commutes(t, c);
    lemma_swap_factors(t, s, s);
    S::law_times_commutes(t, s);
    let t179 = c.times(c.times(c)).plus(c.times(s.times(s)));
    let t180 = c.times(c.times(t)).plus(s.times(s.times(t)));
    S::law_plus_associates(c.negated(), t179, t.negated().plus(t180));
    S::law_plus_associates(c.times(c.times(c)), c.times(s.times(s)), t.negated().plus(t180));
    lemma_swap_terms(c.times(s.times(s)), t.negated(), t180);
    lemma_swap_terms(c.times(s.times(s)), c.times(c.times(t)), s.times(s.times(t)));
    let t181 = c.times(c.times(t)).plus(t141);
    lemma_swap_terms(c.times(c.times(c)), t.negated(), t181);
    let t182 = t162.plus(c.times(t23).plus(t176));
    let t183 = t171.plus(t167.plus(t182));
    let t184 = c.times(c.times(c)).plus(t181);
    let t185 = c.negated().plus(t.negated().plus(t184));
    S::law_plus_associates(S::one_value(), t183, t185);
    S::law_plus_associates(t171, t167.plus(t182), t185);
    S::law_plus_associates(t167, t182, t185);
    S::law_plus_associates(t162, c.times(t23).plus(t176), t185);
    S::law_plus_associates(c.times(t23), t176, t185);
    S::law_plus_associates(c.times(t6), c.times(t5).plus(t173), t185);
    S::law_plus_associates(c.times(t5), t173, t185);
    S::law_plus_associates(c.times(t10), c.times(t104).plus(t170), t185);
    S::law_plus_associates(c.times(t104), t170, t185);
    S::law_plus_associates(c.times(t60), t26.plus(t69.plus(t134)), t185);
    S::law_plus_associates(t26, t69.plus(t134), t185);
    S::law_plus_associates(t69, t134, t185);
    S::law_plus_associates(t69, t62.plus(t62.plus(t131)), t185);
    S::law_plus_associates(t62, t62.plus(t131), t185);
    S::law_plus_associates(t62, t131, t185);
    S::law_plus_associates(t106, t63.plus(t63.plus(t65)), t185);
    S::law_plus_associates(t63, t63.plus(t65), t185);
    S::law_plus_associates(t63, t65, t185);
    lemma_swap_terms(t65, c.negated(), t.negated().plus(t184));
    lemma_swap_terms(t65, t.negated(), t184);
    lemma_swap_terms(t65, c.times(c.times(c)), t181);
    lemma_swap_terms(t65, c.times(c.times(t)), t141);
    lemma_swap_terms(t65, c.times(s.times(s)), s.times(s.times(t)));
    S::law_plus_commutes(t65, s.times(s.times(t)));
    let t186 = s.times(s.times(t)).plus(t65);
    let t187 = c.times(s.times(s)).plus(t186);
    let t188 = c.times(c.times(t)).plus(t187);
    let t189 = c.times(c.times(c)).plus(t188);
    lemma_swap_terms(t63, c.negated(), t.negated().plus(t189));
    lemma_swap_terms(t63, t.negated(), t189);
    lemma_swap_terms(t63, c.times(c.times(c)), t188);
    lemma_swap_terms(t63, c.times(c.times(t)), t187);
    lemma_swap_terms(t63, c.times(s.times(s)), t186);
    lemma_swap_terms(t63, s.times(s.times(t)), t65);
    let t190 = s.times(s.times(t)).plus(t63.plus(t65));
    let t191 = c.times(s.times(s)).plus(t190);
    let t192 = c.times(c.times(t)).plus(t191);
    let t193 = c.times(c.times(c)).plus(t192);
    lemma_swap_terms(t63, c.negated(), t.negated().plus(t193));
    lemma_swap_terms(t63, t.negated(), t193);
    lemma_swap_terms(t63, c.times(c.times(c)), t192);
    lemma_swap_terms(t63, c.times(c.times(t)), t191);
    lemma_swap_terms(t63, c.times(s.times(s)), t190);
    lemma_swap_terms(t63, s.times(s.times(t)), t63.plus(t65));
    let t194 = s.times(s.times(t)).plus(t63.plus(t63.plus(t65)));
    let t195 = c.times(s.times(s)).plus(t194);
    let t196 = c.times(c.times(t)).plus(t195);
    let t197 = c.times(c.times(c)).plus(t196);
    lemma_swap_terms(t106, c.negated(), t.negated().plus(t197));
    lemma_swap_terms(t106, t.negated(), t197);
    lemma_swap_terms(t106, c.times(c.times(c)), t196);
    lemma_swap_terms(t106, c.times(c.times(t)), t195);
    lemma_swap_terms(t106, c.times(s.times(s)), t194);
    lemma_swap_terms(t106, s.times(s.times(t)), t63.plus(t63.plus(t65)));
    let t198 = s.times(s.times(t)).plus(t131);
    let t199 = c.times(s.times(s)).plus(t198);
    let t200 = c.times(c.times(t)).plus(t199);
    let t201 = c.times(c.times(c)).plus(t200);
    lemma_swap_terms(t62, c.negated(), t.negated().plus(t201));
    lemma_swap_terms(t62, t.negated(), t201);
    lemma_swap_terms(t62, c.times(c.times(c)), t200);
    lemma_swap_terms(t62, c.times(c.times(t)), t199);
    lemma_swap_terms(t62, c.times(s.times(s)), t198);
    lemma_swap_terms(t62, s.times(s.times(t)), t131);
    let t202 = s.times(s.times(t)).plus(t62.plus(t131));
    let t203 = c.times(s.times(s)).plus(t202);
    let t204 = c.times(c.times(t)).plus(t203);
    let t205 = c.times(c.times(c)).plus(t204);
    lemma_swap_terms(t62, c.negated(), t.negated().plus(t205));
    lemma_swap_terms(t62, t.negated(), t205);
    lemma_swap_terms(t62, c.times(c.times(c)), t204);
    lemma_swap_terms(t62, c.times(c.times(t)), t203);
    lemma_swap_terms(t62, c.times(s.times(s)), t202);
    lemma_swap_terms(t62, s.times(s.times(t)), t62.plus(t131));
    let t206 = s.times(s.times(t)).plus(t62.plus(t62.plus(t131)));
    let t207 = c.times(s.times(s)).plus(t206);
    let t208 = c.times(c.times(t)).plus(t207);
    let t209 = c.times(c.times(c)).plus(t208);
    lemma_swap_terms(t69, c.negated(), t.negated().plus(t209));
    lemma_swap_terms(t69, t.negated(), t209);
    lemma_swap_terms(t69, c.times(c.times(c)), t208);
    lemma_swap_terms(t69, c.times(c.times(t)), t207);
    lemma_swap_terms(t69, c.times(s.times(s)), t206);
    lemma_swap_terms(t69, s.times(s.times(t)), t62.plus(t62.plus(t131)));
    let t210 = s.times(s.times(t)).plus(t134);
    let t211 = c.times(s.times(s)).plus(t210);
    let t212 = c.times(c.times(t)).plus(t211);
    let t213 = c.times(c.times(c)).plus(t212);
    lemma_swap_terms(t69, c.negated(), t.negated().plus(t213));
    lemma_swap_terms(t69, t.negated(), t213);
    lemma_swap_terms(t69, c.times(c.times(c)), t212);
    lemma_swap_terms(t69, c.times(c.times(t)), t211);
    lemma_swap_terms(t69, c.times(s.times(s)), t210);
    lemma_swap_terms(t69, s.times(s.times(t)), t134);
    let t214 = s.times(s.times(t)).plus(t69.plus(t134));
    let t215 = c.times(s.times(s)).plus(t214);
    let t216 = c.times(c.times(t)).plus(t215);
    let t217 = c.times(c.times(c)).plus(t216);
    lemma_swap_terms(t26, c.negated(), t.negated().plus(t217));
    lemma_swap_terms(t26, t.negated(), t217);
    lemma_swap_terms(t26, c.times(c.times(c)), t216);
    lemma_swap_terms(t26, c.times(c.times(t)), t215);
    lemma_swap_terms(t26, c.times(s.times(s)), t214);
    lemma_swap_terms(t26, s.times(s.times(t)), t69.plus(t134));
    let t218 = s.times(s.times(t)).plus(t26.plus(t69.plus(t134)));
    let t219 = c.times(s.times(s)).plus(t218);
    let t220 = c.times(c.times(t)).plus(t219);
    let t221 = c.times(c.times(c)).plus(t220);
    lemma_swap_terms(c.times(t60), c.negated(), t.negated().plus(t221));
    lemma_swap_terms(c.times(t60), t.negated(), t221);
    lemma_swap_terms(c.times(t60), c.times(c.times(c)), t220);
    lemma_swap_terms(c.times(t60), c.times(c.times(t)), t219);
    lemma_swap_terms(c.times(t60), c.times(s.times(s)), t218);
    lemma_swap_terms(c.times(t60), s.times(s.times(t)), t26.plus(t69.plus(t134)));
    let t222 = s.times(s.times(t)).plus(t170);
    let t223 = c.times(s.times(s)).plus(t222);
    let t224 = c.times(c.times(t)).plus(t223);
    let t225 = c.times(c.times(c)).plus(t224);
    lemma_swap_terms(c.times(t104), c.negated(), t.negated().plus(t225));
    lemma_swap_terms(c.times(t104), t.negated(), t225);
    lemma_swap_terms(c.times(t104), c.times(c.times(c)), t224);
    lemma_swap_terms(c.times(t104), c.times(c.times(t)), t223);
    lemma_swap_terms(c.times(t104), c.times(s.times(s)), t222);
    lemma_swap_terms(c.times(t104), s.times(s.times(t)), t170);
    let t226 = s.times(s.times(t)).plus(c.times(t104).plus(t170));
    let t227 = c.times(s.times(s)).plus(t226);
    let t228 = c.times(c.times(t)).plus(t227);
    let t229 = c.times(c.times(c)).plus(t228);
    lemma_swap_terms(c.times(t10), c.negated(), t.negated().plus(t229));
    lemma_swap_terms(c.times(t10), t.negated(), t229);
    lemma_swap_terms(c.times(t10), c.times(c.times(c)), t228);
    lemma_swap_terms(c.times(t10), c.times(c.times(t)), t227);
    lemma_swap_terms(c.times(t10), c.times(s.times(s)), t226);
    lemma_swap_terms(c.times(t10), s.times(s.times(t)), c.times(t104).plus(t170));
    let t230 = s.times(s.times(t)).plus(t173);
    let t231 = c.times(s.times(s)).plus(t230);
    let t232 = c.times(c.times(t)).plus(t231);
    let t233 = c.times(c.times(c)).plus(t232);
    lemma_swap_terms(c.times(t5), c.negated(), t.negated().plus(t233));
    lemma_swap_terms(c.times(t5), t.negated(), t233);
    lemma_swap_terms(c.times(t5), c.times(c.times(c)), t232);
    lemma_swap_terms(c.times(t5), c.times(c.times(t)), t231);
    lemma_swap_terms(c.times(t5), c.times(s.times(s)), t230);
    lemma_swap_terms(c.times(t5), s.times(s.times(t)), t173);
    let t234 = s.times(s.times(t)).plus(c.times(t5).plus(t173));
    let t235 = c.times(s.times(s)).plus(t234);
    let t236 = c.times(c.times(t)).plus(t235);
    let t237 = c.times(c.times(c)).plus(t236);
    lemma_swap_terms(c.times(t6), c.negated(), t.negated().plus(t237));
    lemma_swap_terms(c.times(t6), t.negated(), t237);
    lemma_swap_terms(c.times(t6), c.times(c.times(c)), t236);
    lemma_swap_terms(c.times(t6), c.times(c.times(t)), t235);
    lemma_swap_terms(c.times(t6), c.times(s.times(s)), t234);
    lemma_swap_terms(c.times(t6), s.times(s.times(t)), c.times(t5).plus(t173));
    let t238 = s.times(s.times(t)).plus(t176);
    let t239 = c.times(s.times(s)).plus(t238);
    let t240 = c.times(c.times(t)).plus(t239);
    let t241 = c.times(c.times(c)).plus(t240);
    lemma_swap_terms(c.times(t23), c.negated(), t.negated().plus(t241));
    lemma_swap_terms(c.times(t23), t.negated(), t241);
    lemma_swap_terms(c.times(t23), c.times(c.times(c)), t240);
    lemma_swap_terms(c.times(t23), c.times(c.times(t)), t239);
    lemma_swap_terms(c.times(t23), c.times(s.times(s)), t238);
    lemma_swap_terms(c.times(t23), s.times(s.times(t)), t176);
    let t242 = s.times(s.times(t)).plus(c.times(t23).plus(t176));
    let t243 = c.times(s.times(s)).plus(t242);
    let t244 = c.times(c.times(t)).plus(t243);
    let t245 = c.times(c.times(c)).plus(t244);
    lemma_swap_terms(t162, c.negated(), t.negated().plus(t245));
    lemma_swap_terms(t162, t.negated(), t245);
    lemma_swap_terms(t162, c.times(c.times(c)), t244);
    lemma_swap_terms(t162, c.times(c.times(t)), t243);
    lemma_swap_terms(t162, c.times(s.times(s)), t242);
    lemma_cancels_front(s.times(s.times(t)), c.times(t23).plus(t176));
    let t246 = c.times(s.times(s)).plus(c.times(t23).plus(t176));
    let t247 = c.times(c.times(t)).plus(t246);
    let t248 = c.times(c.times(c)).plus(t247);
    lemma_swap_terms(t167, c.negated(), t.negated().plus(t248));
    lemma_swap_terms(t167, t.negated(), t248);
    lemma_swap_terms(t167, c.times(c.times(c)), t247);
    lemma_swap_terms(t167, c.times(c.times(t)), t246);
    lemma_cancels_front(c.times(s.times(s)), c.times(t23).plus(t176));
    let t249 = c.times(c.times(t)).plus(c.times(t23).plus(t176));
    let t250 = c.times(c.times(c)).plus(t249);
    lemma_swap_terms(t171, c.negated(), t.negated().plus(t250));
    lemma_swap_terms(t171, t.negated(), t250);
    lemma_swap_terms(t171, c.times(c.times(c)), t249);
    lemma_cancels_front(c.times(c.times(t)), c.times(t23).plus(t176));
    S::law_minus(c.plus(t), S::one_value());
    S::law_plus_associates(c, t, S::one_value().negated());
    S::law_plus_commutes(t, S::one_value().negated());
    lemma_swap_terms(c, S::one_value().negated(), t);
    S::law_distributes(S::one_value(), S::one_value().negated(), c.plus(t));
    lemma_times_negated(S::one_value(), S::one_value());
    lemma_one_times(S::one_value());
    S::law_distributes(S::one_value(), c, t);
    lemma_one_times(c);
    lemma_one_times(t);
    let t251 = c.times(c.times(c)).plus(c.times(t23).plus(t176));
    let t252 = c.negated().plus(t.negated().plus(t251));
    let t253 = S::one_value().negated().plus(c.plus(t));
    S::law_plus_associates(S::one_value(), t252, t253);
    S::law_plus_associates(c.negated(), t.negated().plus(t251), t253);
    S::law_plus_associates(t.negated(), t251, t253);
    S::law_plus_associates(c.times(c.times(c)), c.times(t23).plus(t176), t253);
    S::law_plus_associates(c.times(t23), t176, t253);
    S::law_plus_associates(c.times(t6), c.times(t5).plus(t173), t253);
    S::law_plus_associates(c.times(t5), t173, t253);
    S::law_plus_associates(c.times(t10), c.times(t104).plus(t170), t253);
    S::law_plus_associates(c.times(t104), t170, t253);
    S::law_plus_associates(c.times(t60), t26.plus(t69.plus(t134)), t253);
    S::law_plus_associates(t26, t69.plus(t134), t253);
    S::law_plus_associates(t69, t134, t253);
    S::law_plus_associates(t69, t62.plus(t62.plus(t131)), t253);
    S::law_plus_associates(t62, t62.plus(t131), t253);
    S::law_plus_associates(t62, t131, t253);
    S::law_plus_associates(t106, t63.plus(t63.plus(t65)), t253);
    S::law_plus_associates(t63, t63.plus(t65), t253);
    S::law_plus_associates(t63, t65, t253);
    lemma_swap_terms(t65, S::one_value().negated(), c.plus(t));
    lemma_swap_terms(t65, c, t);
    S::law_plus_commutes(t65, t);
    lemma_swap_terms(t63, S::one_value().negated(), c.plus(t.plus(t65)));
    lemma_swap_terms(t63, c, t.plus(t65));
    lemma_swap_terms(t63, t, t65);
    let t254 = c.plus(t.plus(t63.plus(t65)));
    lemma_swap_terms(t63, S::one_value().negated(), t254);
    lemma_swap_terms(t63, c, t.plus(t63.plus(t65)));
    lemma_swap_terms(t63, t, t63.plus(t65));
    let t255 = t.plus(t63.plus(t63.plus(t65)));
    lemma_swap_terms(t106, S::one_value().negated(), c.plus(t255));
    lemma_swap_terms(t106, c, t255);
    lemma_swap_terms(t106, t, t63.plus(t63.plus(t65)));
    lemma_swap_terms(t62, S::one_value().negated(), c.plus(t.plus(t131)));
    lemma_swap_terms(t62, c, t.plus(t131));
    lemma_swap_terms(t62, t, t131);
    let t256 = c.plus(t.plus(t62.plus(t131)));
    lemma_swap_terms(t62, S::one_value().negated(), t256);
    lemma_swap_terms(t62, c, t.plus(t62.plus(t131)));
    lemma_swap_terms(t62, t, t62.plus(t131));
    let t257 = t.plus(t62.plus(t62.plus(t131)));
    lemma_swap_terms(t69, S::one_value().negated(), c.plus(t257));
    lemma_swap_terms(t69, c, t257);
    lemma_swap_terms(t69, t, t62.plus(t62.plus(t131)));
    lemma_swap_terms(t69, S::one_value().negated(), c.plus(t.plus(t134)));
    lemma_swap_terms(t69, c, t.plus(t134));
    lemma_swap_terms(t69, t, t134);
    let t258 = c.plus(t.plus(t69.plus(t134)));
    lemma_swap_terms(t26, S::one_value().negated(), t258);
    lemma_swap_terms(t26, c, t.plus(t69.plus(t134)));
    lemma_swap_terms(t26, t, t69.plus(t134));
    let t259 = t.plus(t26.plus(t69.plus(t134)));
    lemma_swap_terms(c.times(t60), S::one_value().negated(), c.plus(t259));
    lemma_swap_terms(c.times(t60), c, t259);
    lemma_swap_terms(c.times(t60), t, t26.plus(t69.plus(t134)));
    lemma_swap_terms(c.times(t104), S::one_value().negated(), c.plus(t.plus(t170)));
    lemma_swap_terms(c.times(t104), c, t.plus(t170));
    lemma_swap_terms(c.times(t104), t, t170);
    let t260 = t.plus(c.times(t104).plus(t170));
    lemma_swap_terms(c.times(t10), S::one_value().negated(), c.plus(t260));
    lemma_swap_terms(c.times(t10), c, t260);
    lemma_swap_terms(c.times(t10), t, c.times(t104).plus(t170));
    lemma_swap_terms(c.times(t5), S::one_value().negated(), c.plus(t.plus(t173)));
    lemma_swap_terms(c.times(t5), c, t.plus(t173));
    lemma_swap_terms(c.times(t5), t, t173);
    let t261 = t.plus(c.times(t5).plus(t173));
    lemma_swap_terms(c.times(t6), S::one_value().negated(), c.plus(t261));
    lemma_swap_terms(c.times(t6), c, t261);
    lemma_swap_terms(c.times(t6), t, c.times(t5).plus(t173));
    lemma_swap_terms(c.times(t23), S::one_value().negated(), c.plus(t.plus(t176)));
    lemma_swap_terms(c.times(t23), c, t.plus(t176));
    lemma_swap_terms(c.times(t23), t, t176);
    let t262 = t.plus(c.times(t23).plus(t176));
    lemma_swap_terms(c.times(c.times(c)), S::one_value().negated(), c.plus(t262));
    lemma_swap_terms(c.times(c.times(c)), c, t262);
    lemma_swap_terms(c.times(c.times(c)), t, c.times(t23).plus(t176));
    lemma_swap_terms(t.negated(), S::one_value().negated(), c.plus(t.plus(t251)));
    lemma_swap_terms(t.negated(), c, t.plus(t251));
    lemma_cancels_front(t, t251);
    lemma_swap_terms(c.negated(), S::one_value().negated(), c.plus(t251));
    lemma_cancels_front(c, t251);
    lemma_cancels_front(S::one_value(), t251);
    lemma_minus_self(S::one_value());
    let t263 = c.times(c).times(t).plus(s.times(s).times(t));
    let t264 = t263.plus(c.times(s).times(s));
    let t265 = s.times(s).times(t).times(y);
    let t266 = s.times(s).times(t).times(x);
    let t267 = t264.plus(t265.times(y)).plus(t266.times(x));
    let t268 = s.times(s).times(t).times(z);
    lemma_times_zero(t267.plus(t268.times(z)));
    lemma_times_zero(t.plus(c));
    lemma_times_zero(S::one_value());
    S::law_plus_zero(S::one_value());
}

/// `(t * a) * b = (t * b) * a`.
proof fn lemma_last_factors_commute<S: Field>(t: S, a: S, b: S)
    ensures
        t.times(a).times(b) == t.times(b).times(a),
{
    S::law_times_associates(t, a, b);
    S::law_times_commutes(a, b);
    S::law_times_associates(t, b, a);
}

/// A dot product does not change when the coordinates of both vectors
/// rotate.
proof fn lemma_dot3_rotates<S: Field>(u: Vector3<S>, v: Vector3<S>)
    ensures
        (Vector3 { x: u.y, y: u.z, z: u.x }).dot_product(Vector3 { x: v.y, y: v.z, z: v.x })
            == u.dot_product(v),
        (Vector3 { x: u.z, y: u.x, z: u.y }).dot_product(Vector3 { x: v.z, y: v.x, z: v.y })
            == u.dot_product(v),
{
    lemma_sum3_rotates(u.y.times(v.y), u.z.times(v.z), u.x.times(v.x));
    lemma_sum3_rotates(u.x.times(v.x), u.y.times(v.y), u.z.times(v.z));
}

/// The matrix of Rodrigues' formula is a rotation matrix, for a unit axis and
/// a cosine and sine whose squares sum to one.
pub proof fn lemma_rodrigues_is_rotation<S: Field>(axis: Vector3<S>, cos: S, sin: S)
    requires
        axis.dot_product(axis) == S::one_value(),
        cos.times(cos).plus(sin.times(sin)) == S::one_value(),
    ensures
        Rotation3::rodrigues(axis, cos, sin).is_rotation(),
{
    let m = Rotation3::rodrigues(axis, cos, sin).matrix;
    let t = S::one_value().minus(cos);
    let (x, y, z) = (axis.x, axis.y, axis.z);
    // The formula is the same for the axes (y, z, x) and (z, x, y), with the
    // columns and the coordinates rotated alike.
    let axis1 = Vector3 { x: y, y: z, z: x };
    let axis2 = Vector3 { x: z, y: x, z: y };
    lemma_dot3_rotates(axis, axis);
    lemma_last_factors_commute(t, y, x);
    lemma_last_factors_commute(t, z, x);
    lemma_last_factors_commute(t, z, y);
    lemma_dot3_rotates(m.col1(), m.col1());
    lemma_dot3_rotates(m.col1(), m.col2());
    lemma_dot3_rotates(m.col2(), m.col2());
    lemma_dot3_rotates(m.col2(), m.col0());
    lemma_rodrigues_first_column_is_unit(axis, cos, sin);
    lemma_rodrigues_first_column_is_unit(axis1, cos, sin);
    lemma_rodrigues_first_column_is_unit(axis2, cos, sin);
    lemma_rodrigues_first_columns_are_orthogonal(axis, cos, sin);
    lemma_rodrigues_first_columns_are_orthogonal(axis1, cos, sin);
    lemma_rodrigues_first_columns_are_orthogonal(axis2, cos, sin);
    lemma_dot3_commutes(m.col0(), m.col1());
    lemma_dot3_commutes(m.col1(), m.col2());
    lemma_dot3_commutes(m.col2(), m.col0());
    lemma_rodrigues_determinant(axis, cos, sin);
}

/// The rotation about a unit axis by an angle whose cosine and sine have
/// squares that sum to one is a rotation.
pub proof fn lemma_from_axis_angle_is_rotation<S: Field + ScalarFloat>(
    axis: Unit<Vector3<S>>,
    angle: Radians<S>,
)
    requires
        axis.value.dot_product(axis.value) == S::one_value(),
        angle.0.cosine().times(angle.0.cosine()).plus(angle.0.sine().times(angle.0.sine()))
            == S::one_value(),
    ensures
        Rotation3::from_axis_angle_value(axis, angle).is_rotation(),
{
    lemma_rodrigues_is_rotation(axis.value, angle.0.cosine(), angle.0.sine());
}

} // verus!
