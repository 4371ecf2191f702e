//! The adjugate of a matrix of four dimensions, and its inverse.
//!
//! The adjugate times the matrix, on either side, is the determinant times
//! the identity. Each entry of the product is a determinant by Laplace
//! expansion along two rows, with one row of the matrix in place of another:
//! the determinant itself on the diagonal, and zero elsewhere, where a row
//! stands twice.

use crate::algebra::{
    lemma_cancels_front, lemma_distributes_right, lemma_minus_self, lemma_negated_plus,
    lemma_negated_sum, lemma_negated_times, lemma_negated_twice, lemma_swap_terms,
    lemma_times_negated, lemma_times_zero, lemma_zero_times,
};
use crate::determinant::lemma_swap_factors;
use crate::matrix::Matrix4x4;
use crate::scalar::Field;
use crate::vector::Vector4;
use vstd::prelude::*;

verus! {

/// The six determinants of the pairs of columns of the matrix with the two
/// rows `u` and `v`, in the order (0,1), (0,2), (0,3), (1,2), (1,3), (2,3).
pub open spec fn minors<S: Field>(u: Vector4<S>, v: Vector4<S>) -> (S, S, S, S, S, S) {
    (
        u.x.times(v.y).minus(v.x.times(u.y)),
        u.x.times(v.z).minus(v.x.times(u.z)),
        u.x.times(v.w).minus(v.x.times(u.w)),
        u.y.times(v.z).minus(v.y.times(u.z)),
        u.y.times(v.w).minus(v.y.times(u.w)),
        u.z.times(v.w).minus(v.z.times(u.w)),
    )
}

/// The determinant of four rows by Laplace expansion, from the minors `s` of
/// the upper two rows and the minors `c` of the lower two.
pub open spec fn wedge<S: Field>(s: (S, S, S, S, S, S), c: (S, S, S, S, S, S)) -> S {
    s.0.times(c.5).minus(s.1.times(c.4)).plus(s.2.times(c.3)).plus(s.3.times(c.2)).minus(
        s.4.times(c.1),
    ).plus(s.5.times(c.0))
}

/// A vector dotted with column 0 of the adjugate is a determinant by Laplace
/// expansion, with the vector in place of a row.
proof fn lemma_adjugate4_column0<S: Field>(u: Vector4<S>, m: Matrix4x4<S>)
    ensures
        u.dot_product(m.adjugate().col0()) == wedge(minors(u, m.row1()), m.lower_minors()),
{
    let c = m.lower_minors();
    S::law_minus(m.c1r1.times(c.5), m.c2r1.times(c.4));
    S::law_times_commutes(m.c1r1, c.5);
    S::law_times_commutes(m.c2r1, c.4);
    let t0 = c.4.times(m.c2r1).negated();
    S::law_plus_commutes(c.5.times(m.c1r1), t0);
    S::law_times_commutes(m.c3r1, c.3);
    S::law_plus_associates(t0, c.5.times(m.c1r1), c.3.times(m.c3r1));
    S::law_plus_commutes(c.5.times(m.c1r1), c.3.times(m.c3r1));
    lemma_swap_terms(t0, c.3.times(m.c3r1), c.5.times(m.c1r1));
    let t1 = t0.plus(c.5.times(m.c1r1));
    S::law_distributes(u.x, c.3.times(m.c3r1), t1);
    lemma_swap_factors(u.x, c.3, m.c3r1);
    S::law_times_commutes(u.x, m.c3r1);
    S::law_distributes(u.x, t0, c.5.times(m.c1r1));
    lemma_times_negated(u.x, c.4.times(m.c2r1));
    lemma_swap_factors(u.x, c.4, m.c2r1);
    S::law_times_commutes(u.x, m.c2r1);
    lemma_swap_factors(u.x, c.5, m.c1r1);
    S::law_times_commutes(u.x, m.c1r1);
    let t2 = m.c2r1.times(c.2).minus(m.c0r1.times(c.5));
    S::law_minus(t2, m.c3r1.times(c.1));
    S::law_minus(m.c2r1.times(c.2), m.c0r1.times(c.5));
    S::law_times_commutes(m.c2r1, c.2);
    S::law_times_commutes(m.c0r1, c.5);
    S::law_times_commutes(m.c3r1, c.1);
    let t3 = c.5.times(m.c0r1).negated();
    let t4 = c.1.times(m.c3r1).negated();
    S::law_plus_associates(c.2.times(m.c2r1), t3, t4);
    S::law_plus_commutes(t3, t4);
    lemma_swap_terms(c.2.times(m.c2r1), t4, t3);
    let t5 = c.2.times(m.c2r1).plus(t3);
    S::law_distributes(u.y, t4, t5);
    lemma_times_negated(u.y, c.1.times(m.c3r1));
    lemma_swap_factors(u.y, c.1, m.c3r1);
    S::law_times_commutes(u.y, m.c3r1);
    S::law_distributes(u.y, c.2.times(m.c2r1), t3);
    lemma_swap_factors(u.y, c.2, m.c2r1);
    S::law_times_commutes(u.y, m.c2r1);
    lemma_times_negated(u.y, c.5.times(m.c0r1));
    lemma_swap_factors(u.y, c.5, m.c0r1);
    S::law_times_commutes(u.y, m.c0r1);
    let t6 = c.3.times(m.c3r1.times(u.x));
    let t7 = c.4.times(m.c2r1.times(u.x));
    let t8 = c.5.times(m.c1r1.times(u.x));
    let t9 = c.1.times(m.c3r1.times(u.y));
    let t10 = c.2.times(m.c2r1.times(u.y));
    let t11 = c.5.times(m.c0r1.times(u.y));
    let t12 = t9.negated().plus(t10.plus(t11.negated()));
    S::law_plus_associates(t6, t7.negated().plus(t8), t12);
    S::law_plus_associates(t7.negated(), t8, t12);
    lemma_swap_terms(t8, t9.negated(), t10.plus(t11.negated()));
    lemma_swap_terms(t8, t10, t11.negated());
    S::law_plus_commutes(t8, t11.negated());
    let t13 = t10.plus(t11.negated().plus(t8));
    lemma_swap_terms(t7.negated(), t9.negated(), t13);
    lemma_swap_terms(t7.negated(), t10, t11.negated().plus(t8));
    let t14 = t7.negated().plus(t11.negated().plus(t8));
    lemma_swap_terms(t6, t9.negated(), t10.plus(t14));
    lemma_swap_terms(t6, t10, t14);
    S::law_minus(m.c0r1.times(c.4), m.c1r1.times(c.2));
    S::law_times_commutes(m.c0r1, c.4);
    S::law_times_commutes(m.c1r1, c.2);
    let t15 = c.2.times(m.c1r1).negated();
    S::law_plus_commutes(c.4.times(m.c0r1), t15);
    S::law_times_commutes(m.c3r1, c.0);
    S::law_plus_associates(t15, c.4.times(m.c0r1), c.0.times(m.c3r1));
    S::law_plus_commutes(c.4.times(m.c0r1), c.0.times(m.c3r1));
    lemma_swap_terms(t15, c.0.times(m.c3r1), c.4.times(m.c0r1));
    let t16 = t15.plus(c.4.times(m.c0r1));
    S::law_distributes(u.z, c.0.times(m.c3r1), t16);
    lemma_swap_factors(u.z, c.0, m.c3r1);
    S::law_times_commutes(u.z, m.c3r1);
    S::law_distributes(u.z, t15, c.4.times(m.c0r1));
    lemma_times_negated(u.z, c.2.times(m.c1r1));
    lemma_swap_factors(u.z, c.2, m.c1r1);
    S::law_times_commutes(u.z, m.c1r1);
    lemma_swap_factors(u.z, c.4, m.c0r1);
    S::law_times_commutes(u.z, m.c0r1);
    let t17 = c.0.times(m.c3r1.times(u.z));
    let t18 = c.2.times(m.c1r1.times(u.z));
    let t19 = c.4.times(m.c0r1.times(u.z));
    let t20 = t17.plus(t18.negated().plus(t19));
    S::law_plus_associates(t9.negated(), t10.plus(t6.plus(t14)), t20);
    S::law_plus_associates(t10, t6.plus(t14), t20);
    S::law_plus_associates(t6, t14, t20);
    S::law_plus_associates(t7.negated(), t11.negated().plus(t8), t20);
    S::law_plus_associates(t11.negated(), t8, t20);
    lemma_swap_terms(t8, t17, t18.negated().plus(t19));
    lemma_swap_terms(t8, t18.negated(), t19);
    S::law_plus_commutes(t8, t19);
    let t21 = t18.negated().plus(t19.plus(t8));
    lemma_swap_terms(t11.negated(), t17, t21);
    lemma_swap_terms(t11.negated(), t18.negated(), t19.plus(t8));
    lemma_swap_terms(t11.negated(), t19, t8);
    let t22 = t19.plus(t11.negated().plus(t8));
    lemma_swap_terms(t7.negated(), t17, t18.negated().plus(t22));
    lemma_swap_terms(t7.negated(), t18.negated(), t22);
    lemma_swap_terms(t7.negated(), t19, t11.negated().plus(t8));
    let t23 = t18.negated().plus(t19.plus(t14));
    lemma_swap_terms(t6, t17, t23);
    lemma_swap_terms(t6, t18.negated(), t19.plus(t14));
    let t24 = t18.negated().plus(t6.plus(t19.plus(t14)));
    lemma_swap_terms(t10, t17, t24);
    lemma_swap_terms(t10, t18.negated(), t6.plus(t19.plus(t14)));
    let t25 = t10.plus(t6.plus(t19.plus(t14)));
    lemma_swap_terms(t9.negated(), t17, t18.negated().plus(t25));
    let t26 = m.c1r1.times(c.1).minus(m.c0r1.times(c.3));
    S::law_minus(t26, m.c2r1.times(c.0));
    S::law_minus(m.c1r1.times(c.1), m.c0r1.times(c.3));
    S::law_times_commutes(m.c1r1, c.1);
    S::law_times_commutes(m.c0r1, c.3);
    S::law_times_commutes(m.c2r1, c.0);
    let t27 = c.3.times(m.c0r1).negated();
    let t28 = c.0.times(m.c2r1).negated();
    S::law_plus_associates(c.1.times(m.c1r1), t27, t28);
    S::law_plus_commutes(t27, t28);
    lemma_swap_terms(c.1.times(m.c1r1), t28, t27);
    let t29 = c.1.times(m.c1r1).plus(t27);
    S::law_distributes(u.w, t28, t29);
    lemma_times_negated(u.w, c.0.times(m.c2r1));
    lemma_swap_factors(u.w, c.0, m.c2r1);
    S::law_times_commutes(u.w, m.c2r1);
    S::law_distributes(u.w, c.1.times(m.c1r1), t27);
    lemma_swap_factors(u.w, c.1, m.c1r1);
    S::law_times_commutes(u.w, m.c1r1);
    lemma_times_negated(u.w, c.3.times(m.c0r1));
    lemma_swap_factors(u.w, c.3, m.c0r1);
    S::law_times_commutes(u.w, m.c0r1);
    let t30 = t9.negated().plus(t18.negated().plus(t25));
    let t31 = c.0.times(m.c2r1.times(u.w));
    let t32 = c.1.times(m.c1r1.times(u.w));
    let t33 = c.3.times(m.c0r1.times(u.w));
    let t34 = t31.negated().plus(t32.plus(t33.negated()));
    S::law_plus_associates(t17, t30, t34);
    S::law_plus_associates(t9.negated(), t18.negated().plus(t25), t34);
    S::law_plus_associates(t18.negated(), t25, t34);
    S::law_plus_associates(t10, t6.plus(t19.plus(t14)), t34);
    S::law_plus_associates(t6, t19.plus(t14), t34);
    S::law_plus_associates(t19, t14, t34);
    S::law_plus_associates(t7.negated(), t11.negated().plus(t8), t34);
    S::law_plus_associates(t11.negated(), t8, t34);
    lemma_swap_terms(t8, t31.negated(), t32.plus(t33.negated()));
    lemma_swap_terms(t8, t32, t33.negated());
    S::law_plus_commutes(t8, t33.negated());
    let t35 = t32.plus(t33.negated().plus(t8));
    lemma_swap_terms(t11.negated(), t31.negated(), t35);
    lemma_swap_terms(t11.negated(), t32, t33.negated().plus(t8));
    lemma_swap_terms(t11.negated(), t33.negated(), t8);
    let t36 = t33.negated().plus(t11.negated().plus(t8));
    lemma_swap_terms(t7.negated(), t31.negated(), t32.plus(t36));
    lemma_swap_terms(t7.negated(), t32, t36);
    lemma_swap_terms(t7.negated(), t33.negated(), t11.negated().plus(t8));
    let t37 = t32.plus(t33.negated().plus(t14));
    lemma_swap_terms(t19, t31.negated(), t37);
    lemma_swap_terms(t19, t32, t33.negated().plus(t14));
    lemma_swap_terms(t19, t33.negated(), t14);
    let t38 = t33.negated().plus(t19.plus(t14));
    lemma_swap_terms(t6, t31.negated(), t32.plus(t38));
    lemma_swap_terms(t6, t32, t38);
    lemma_swap_terms(t6, t33.negated(), t19.plus(t14));
    let t39 = t33.negated().plus(t6.plus(t19.plus(t14)));
    lemma_swap_terms(t10, t31.negated(), t32.plus(t39));
    lemma_swap_terms(t10, t32, t39);
    lemma_swap_terms(t18.negated(), t31.negated(), t32.plus(t10.plus(t39)));
    lemma_swap_terms(t18.negated(), t32, t10.plus(t39));
    let t40 = t18.negated().plus(t10.plus(t39));
    lemma_swap_terms(t9.negated(), t31.negated(), t32.plus(t40));
    lemma_swap_terms(t9.negated(), t32, t40);
    let t41 = t32.plus(t9.negated().plus(t40));
    lemma_swap_terms(t17, t31.negated(), t41);
    let t42 = u.x.times(m.c1r1).minus(m.c0r1.times(u.y));
    let t43 = u.x.times(m.c2r1).minus(m.c0r1.times(u.z));
    let t44 = t42.times(c.5).minus(t43.times(c.4));
    let t45 = u.x.times(m.c3r1).minus(m.c0r1.times(u.w));
    let t46 = u.y.times(m.c2r1).minus(m.c1r1.times(u.z));
    let t47 = t44.plus(t45.times(c.3)).plus(t46.times(c.2));
    let t48 = u.y.times(m.c3r1).minus(m.c1r1.times(u.w));
    S::law_minus(t47, t48.times(c.1));
    S::law_minus(t42.times(c.5), t43.times(c.4));
    S::law_minus(u.x.times(m.c1r1), m.c0r1.times(u.y));
    S::law_times_commutes(u.x, m.c1r1);
    let t49 = m.c0r1.times(u.y).negated();
    S::law_plus_commutes(m.c1r1.times(u.x), t49);
    lemma_distributes_right(t49, m.c1r1.times(u.x), c.5);
    lemma_negated_times(m.c0r1.times(u.y), c.5);
    S::law_times_associates(m.c0r1, u.y, c.5);
    S::law_times_commutes(u.y, c.5);
    lemma_swap_factors(m.c0r1, c.5, u.y);
    S::law_times_associates(m.c1r1, u.x, c.5);
    S::law_times_commutes(u.x, c.5);
    lemma_swap_factors(m.c1r1, c.5, u.x);
    S::law_minus(u.x.times(m.c2r1), m.c0r1.times(u.z));
    S::law_times_commutes(u.x, m.c2r1);
    let t50 = m.c0r1.times(u.z).negated();
    S::law_plus_commutes(m.c2r1.times(u.x), t50);
    lemma_distributes_right(t50, m.c2r1.times(u.x), c.4);
    lemma_negated_times(m.c0r1.times(u.z), c.4);
    S::law_times_associates(m.c0r1, u.z, c.4);
    S::law_times_commutes(u.z, c.4);
    lemma_swap_factors(m.c0r1, c.4, u.z);
    S::law_times_associates(m.c2r1, u.x, c.4);
    S::law_times_commutes(u.x, c.4);
    lemma_swap_factors(m.c2r1, c.4, u.x);
    lemma_negated_sum(t19.negated(), t7);
    lemma_negated_twice(t19);
    S::law_plus_associates(t11.negated(), t8, t19.plus(t7.negated()));
    lemma_swap_terms(t8, t19, t7.negated());
    S::law_plus_commutes(t8, t7.negated());
    lemma_swap_terms(t11.negated(), t19, t7.negated().plus(t8));
    lemma_swap_terms(t11.negated(), t7.negated(), t8);
    S::law_minus(u.x.times(m.c3r1), m.c0r1.times(u.w));
    S::law_times_commutes(u.x, m.c3r1);
    let t51 = m.c0r1.times(u.w).negated();
    S::law_plus_commutes(m.c3r1.times(u.x), t51);
    lemma_distributes_right(t51, m.c3r1.times(u.x), c.3);
    lemma_negated_times(m.c0r1.times(u.w), c.3);
    S::law_times_associates(m.c0r1, u.w, c.3);
    S::law_times_commutes(u.w, c.3);
    lemma_swap_factors(m.c0r1, c.3, u.w);
    S::law_times_associates(m.c3r1, u.x, c.3);
    S::law_times_commutes(u.x, c.3);
    lemma_swap_factors(m.c3r1, c.3, u.x);
    S::law_plus_associates(t19, t14, t33.negated().plus(t6));
    S::law_plus_associates(t7.negated(), t11.negated().plus(t8), t33.negated().plus(t6));
    S::law_plus_associates(t11.negated(), t8, t33.negated().plus(t6));
    lemma_swap_terms(t8, t33.negated(), t6);
    S::law_plus_commutes(t8, t6);
    lemma_swap_terms(t11.negated(), t33.negated(), t6.plus(t8));
    lemma_swap_terms(t11.negated(), t6, t8);
    let t52 = t6.plus(t11.negated().plus(t8));
    lemma_swap_terms(t7.negated(), t33.negated(), t52);
    lemma_swap_terms(t7.negated(), t6, t11.negated().plus(t8));
    lemma_swap_terms(t19, t33.negated(), t6.plus(t14));
    lemma_swap_terms(t19, t6, t14);
    S::law_minus(u.y.times(m.c2r1), m.c1r1.times(u.z));
    S::law_times_commutes(u.y, m.c2r1);
    let t53 = m.c1r1.times(u.z).negated();
    S::law_plus_commutes(m.c2r1.times(u.y), t53);
    lemma_distributes_right(t53, m.c2r1.times(u.y), c.2);
    lemma_negated_times(m.c1r1.times(u.z), c.2);
    S::law_times_associates(m.c1r1, u.z, c.2);
    S::law_times_commutes(u.z, c.2);
    lemma_swap_factors(m.c1r1, c.2, u.z);
    S::law_times_associates(m.c2r1, u.y, c.2);
    S::law_times_commutes(u.y, c.2);
    lemma_swap_factors(m.c2r1, c.2, u.y);
    S::law_plus_associates(t33.negated(), t6.plus(t19.plus(t14)), t18.negated().plus(t10));
    S::law_plus_associates(t6, t19.plus(t14), t18.negated().plus(t10));
    S::law_plus_associates(t19, t14, t18.negated().plus(t10));
    S::law_plus_associates(t7.negated(), t11.negated().plus(t8), t18.negated().plus(t10));
    S::law_plus_associates(t11.negated(), t8, t18.negated().plus(t10));
    lemma_swap_terms(t8, t18.negated(), t10);
    S::law_plus_commutes(t8, t10);
    lemma_swap_terms(t11.negated(), t18.negated(), t10.plus(t8));
    lemma_swap_terms(t11.negated(), t10, t8);
    lemma_swap_terms(t7.negated(), t18.negated(), t13);
    lemma_swap_terms(t7.negated(), t10, t11.negated().plus(t8));
    lemma_swap_terms(t19, t18.negated(), t10.plus(t14));
    lemma_swap_terms(t19, t10, t14);
    lemma_swap_terms(t6, t18.negated(), t10.plus(t19.plus(t14)));
    lemma_swap_terms(t6, t10, t19.plus(t14));
    lemma_swap_terms(t33.negated(), t18.negated(), t25);
    lemma_swap_terms(t33.negated(), t10, t6.plus(t19.plus(t14)));
    S::law_minus(u.y.times(m.c3r1), m.c1r1.times(u.w));
    S::law_times_commutes(u.y, m.c3r1);
    let t54 = m.c1r1.times(u.w).negated();
    S::law_plus_commutes(m.c3r1.times(u.y), t54);
    lemma_distributes_right(t54, m.c3r1.times(u.y), c.1);
    lemma_negated_times(m.c1r1.times(u.w), c.1);
    S::law_times_associates(m.c1r1, u.w, c.1);
    S::law_times_commutes(u.w, c.1);
    lemma_swap_factors(m.c1r1, c.1, u.w);
    S::law_times_associates(m.c3r1, u.y, c.1);
    S::law_times_commutes(u.y, c.1);
    lemma_swap_factors(m.c3r1, c.1, u.y);
    lemma_negated_sum(t32.negated(), t9);
    lemma_negated_twice(t32);
    S::law_plus_associates(t18.negated(), t10.plus(t39), t32.plus(t9.negated()));
    S::law_plus_associates(t10, t39, t32.plus(t9.negated()));
    S::law_plus_associates(t33.negated(), t6.plus(t19.plus(t14)), t32.plus(t9.negated()));
    S::law_plus_associates(t6, t19.plus(t14), t32.plus(t9.negated()));
    S::law_plus_associates(t19, t14, t32.plus(t9.negated()));
    S::law_plus_associates(t7.negated(), t11.negated().plus(t8), t32.plus(t9.negated()));
    S::law_plus_associates(t11.negated(), t8, t32.plus(t9.negated()));
    lemma_swap_terms(t8, t32, t9.negated());
    S::law_plus_commutes(t8, t9.negated());
    lemma_swap_terms(t11.negated(), t32, t9.negated().plus(t8));
    lemma_swap_terms(t11.negated(), t9.negated(), t8);
    let t55 = t9.negated().plus(t11.negated().plus(t8));
    lemma_swap_terms(t7.negated(), t32, t55);
    lemma_swap_terms(t7.negated(), t9.negated(), t11.negated().plus(t8));
    lemma_swap_terms(t19, t32, t9.negated().plus(t14));
    lemma_swap_terms(t19, t9.negated(), t14);
    let t56 = t9.negated().plus(t19.plus(t14));
    lemma_swap_terms(t6, t32, t56);
    lemma_swap_terms(t6, t9.negated(), t19.plus(t14));
    let t57 = t9.negated().plus(t6.plus(t19.plus(t14)));
    lemma_swap_terms(t33.negated(), t32, t57);
    lemma_swap_terms(t33.negated(), t9.negated(), t6.plus(t19.plus(t14)));
    lemma_swap_terms(t10, t32, t9.negated().plus(t39));
    lemma_swap_terms(t10, t9.negated(), t39);
    let t58 = t9.negated().plus(t10.plus(t39));
    lemma_swap_terms(t18.negated(), t32, t58);
    lemma_swap_terms(t18.negated(), t9.negated(), t10.plus(t39));
    S::law_minus(u.z.times(m.c3r1), m.c2r1.times(u.w));
    S::law_times_commutes(u.z, m.c3r1);
    let t59 = m.c2r1.times(u.w).negated();
    S::law_plus_commutes(m.c3r1.times(u.z), t59);
    lemma_distributes_right(t59, m.c3r1.times(u.z), c.0);
    lemma_negated_times(m.c2r1.times(u.w), c.0);
    S::law_times_associates(m.c2r1, u.w, c.0);
    S::law_times_commutes(u.w, c.0);
    lemma_swap_factors(m.c2r1, c.0, u.w);
    S::law_times_associates(m.c3r1, u.z, c.0);
    S::law_times_commutes(u.z, c.0);
    lemma_swap_factors(m.c3r1, c.0, u.z);
    S::law_plus_associates(t32, t9.negated().plus(t40), t31.negated().plus(t17));
    S::law_plus_associates(t9.negated(), t40, t31.negated().plus(t17));
    S::law_plus_associates(t18.negated(), t10.plus(t39), t31.negated().plus(t17));
    S::law_plus_associates(t10, t39, t31.negated().plus(t17));
    S::law_plus_associates(t33.negated(), t6.plus(t19.plus(t14)), t31.negated().plus(t17));
    S::law_plus_associates(t6, t19.plus(t14), t31.negated().plus(t17));
    S::law_plus_associates(t19, t14, t31.negated().plus(t17));
    S::law_plus_associates(t7.negated(), t11.negated().plus(t8), t31.negated().plus(t17));
    S::law_plus_associates(t11.negated(), t8, t31.negated().plus(t17));
    lemma_swap_terms(t8, t31.negated(), t17);
    S::law_plus_commutes(t8, t17);
    lemma_swap_terms(t11.negated(), t31.negated(), t17.plus(t8));
    lemma_swap_terms(t11.negated(), t17, t8);
    let t60 = t17.plus(t11.negated().plus(t8));
    lemma_swap_terms(t7.negated(), t31.negated(), t60);
    lemma_swap_terms(t7.negated(), t17, t11.negated().plus(t8));
    lemma_swap_terms(t19, t31.negated(), t17.plus(t14));
    lemma_swap_terms(t19, t17, t14);
    lemma_swap_terms(t6, t31.negated(), t17.plus(t19.plus(t14)));
    lemma_swap_terms(t6, t17, t19.plus(t14));
    let t61 = t17.plus(t6.plus(t19.plus(t14)));
    lemma_swap_terms(t33.negated(), t31.negated(), t61);
    lemma_swap_terms(t33.negated(), t17, t6.plus(t19.plus(t14)));
    lemma_swap_terms(t10, t31.negated(), t17.plus(t39));
    lemma_swap_terms(t10, t17, t39);
    lemma_swap_terms(t18.negated(), t31.negated(), t17.plus(t10.plus(t39)));
    lemma_swap_terms(t18.negated(), t17, t10.plus(t39));
    lemma_swap_terms(t9.negated(), t31.negated(), t17.plus(t40));
    lemma_swap_terms(t9.negated(), t17, t40);
    let t62 = t17.plus(t9.negated().plus(t40));
    lemma_swap_terms(t32, t31.negated(), t62);
    lemma_swap_terms(t32, t17, t9.negated().plus(t40));
}

/// A vector dotted with column 1 of the adjugate is a determinant by Laplace
/// expansion, with the vector in place of a row.
proof fn lemma_adjugate4_column1<S: Field>(u: Vector4<S>, m: Matrix4x4<S>)
    ensures
        u.dot_product(m.adjugate().col1()) == wedge(minors(m.row0(), u), m.lower_minors()),
{
    let c = m.lower_minors();
    let t0 = m.c2r0.times(c.4).minus(m.c1r0.times(c.5));
    S::law_minus(t0, m.c3r0.times(c.3));
    S::law_minus(m.c2r0.times(c.4), m.c1r0.times(c.5));
    S::law_times_commutes(m.c2r0, c.4);
    S::law_times_commutes(m.c1r0, c.5);
    S::law_times_commutes(m.c3r0, c.3);
    let t1 = c.5.times(m.c1r0).negated();
    let t2 = c.3.times(m.c3r0).negated();
    S::law_plus_associates(c.4.times(m.c2r0), t1, t2);
    S::law_plus_commutes(t1, t2);
    lemma_swap_terms(c.4.times(m.c2r0), t2, t1);
    let t3 = c.4.times(m.c2r0).plus(t1);
    S::law_distributes(u.x, t2, t3);
    lemma_times_negated(u.x, c.3.times(m.c3r0));
    lemma_swap_factors(u.x, c.3, m.c3r0);
    S::law_times_commutes(u.x, m.c3r0);
    S::law_distributes(u.x, c.4.times(m.c2r0), t1);
    lemma_swap_factors(u.x, c.4, m.c2r0);
    S::law_times_commutes(u.x, m.c2r0);
    lemma_times_negated(u.x, c.5.times(m.c1r0));
    lemma_swap_factors(u.x, c.5, m.c1r0);
    S::law_times_commutes(u.x, m.c1r0);
    S::law_minus(m.c0r0.times(c.5), m.c2r0.times(c.2));
    S::law_times_commutes(m.c0r0, c.5);
    S::law_times_commutes(m.c2r0, c.2);
    let t4 = c.2.times(m.c2r0).negated();
    S::law_plus_commutes(c.5.times(m.c0r0), t4);
    S::law_times_commutes(m.c3r0, c.1);
    S::law_plus_associates(t4, c.5.times(m.c0r0), c.1.times(m.c3r0));
    S::law_plus_commutes(c.5.times(m.c0r0), c.1.times(m.c3r0));
    lemma_swap_terms(t4, c.1.times(m.c3r0), c.5.times(m.c0r0));
    let t5 = t4.plus(c.5.times(m.c0r0));
    S::law_distributes(u.y, c.1.times(m.c3r0), t5);
    lemma_swap_factors(u.y, c.1, m.c3r0);
    S::law_times_commutes(u.y, m.c3r0);
    S::law_distributes(u.y, t4, c.5.times(m.c0r0));
    lemma_times_negated(u.y, c.2.times(m.c2r0));
    lemma_swap_factors(u.y, c.2, m.c2r0);
    S::law_times_commutes(u.y, m.c2r0);
    lemma_swap_factors(u.y, c.5, m.c0r0);
    S::law_times_commutes(u.y, m.c0r0);
    let t6 = c.3.times(m.c3r0.times(u.x));
    let t7 = c.4.times(m.c2r0.times(u.x));
    let t8 = c.5.times(m.c1r0.times(u.x));
    let t9 = c.1.times(m.c3r0.times(u.y));
    let t10 = c.2.times(m.c2r0.times(u.y));
    let t11 = c.5.times(m.c0r0.times(u.y));
    let t12 = t9.plus(t10.negated().plus(t11));
    S::law_plus_associates(t6.negated(), t7.plus(t8.negated()), t12);
    S::law_plus_associates(t7, t8.negated(), t12);
    lemma_swap_terms(t8.negated(), t9, t10.negated().plus(t11));
    lemma_swap_terms(t8.negated(), t10.negated(), t11);
    S::law_plus_commutes(t8.negated(), t11);
    let t13 = t10.negated().plus(t11.plus(t8.negated()));
    lemma_swap_terms(t7, t9, t13);
    lemma_swap_terms(t7, t10.negated(), t11.plus(t8.negated()));
    let t14 = t7.plus(t11.plus(t8.negated()));
    lemma_swap_terms(t6.negated(), t9, t10.negated().plus(t14));
    lemma_swap_terms(t6.negated(), t10.negated(), t14);
    let t15 = m.c1r0.times(c.2).minus(m.c0r0.times(c.4));
    S::law_minus(t15, m.c3r0.times(c.0));
    S::law_minus(m.c1r0.times(c.2), m.c0r0.times(c.4));
    S::law_times_commutes(m.c1r0, c.2);
    S::law_times_commutes(m.c0r0, c.4);
    S::law_times_commutes(m.c3r0, c.0);
    let t16 = c.4.times(m.c0r0).negated();
    let t17 = c.0.times(m.c3r0).negated();
    S::law_plus_associates(c.2.times(m.c1r0), t16, t17);
    S::law_plus_commutes(t16, t17);
    lemma_swap_terms(c.2.times(m.c1r0), t17, t16);
    let t18 = c.2.times(m.c1r0).plus(t16);
    S::law_distributes(u.z, t17, t18);
    lemma_times_negated(u.z, c.0.times(m.c3r0));
    lemma_swap_factors(u.z, c.0, m.c3r0);
    S::law_times_commutes(u.z, m.c3r0);
    S::law_distributes(u.z, c.2.times(m.c1r0), t16);
    lemma_swap_factors(u.z, c.2, m.c1r0);
    S::law_times_commutes(u.z, m.c1r0);
    lemma_times_negated(u.z, c.4.times(m.c0r0));
    lemma_swap_factors(u.z, c.4, m.c0r0);
    S::law_times_commutes(u.z, m.c0r0);
    let t19 = t10.negated().plus(t6.negated().plus(t14));
    let t20 = c.0.times(m.c3r0.times(u.z));
    let t21 = c.2.times(m.c1r0.times(u.z));
    let t22 = c.4.times(m.c0r0.times(u.z));
    let t23 = t20.negated().plus(t21.plus(t22.negated()));
    S::law_plus_associates(t9, t19, t23);
    S::law_plus_associates(t10.negated(), t6.negated().plus(t14), t23);
    S::law_plus_associates(t6.negated(), t14, t23);
    S::law_plus_associates(t7, t11.plus(t8.negated()), t23);
    S::law_plus_associates(t11, t8.negated(), t23);
    lemma_swap_terms(t8.negated(), t20.negated(), t21.plus(t22.negated()));
    lemma_swap_terms(t8.negated(), t21, t22.negated());
    S::law_plus_commutes(t8.negated(), t22.negated());
    let t24 = t22.negated().plus(t8.negated());
    lemma_swap_terms(t11, t20.negated(), t21.plus(t24));
    lemma_swap_terms(t11, t21, t24);
    lemma_swap_terms(t11, t22.negated(), t8.negated());
    let t25 = t22.negated().plus(t11.plus(t8.negated()));
    lemma_swap_terms(t7, t20.negated(), t21.plus(t25));
    lemma_swap_terms(t7, t21, t25);
    lemma_swap_terms(t7, t22.negated(), t11.plus(t8.negated()));
    let t26 = t21.plus(t22.negated().plus(t14));
    lemma_swap_terms(t6.negated(), t20.negated(), t26);
    lemma_swap_terms(t6.negated(), t21, t22.negated().plus(t14));
    let t27 = t6.negated().plus(t22.negated().plus(t14));
    lemma_swap_terms(t10.negated(), t20.negated(), t21.plus(t27));
    lemma_swap_terms(t10.negated(), t21, t27);
    let t28 = t21.plus(t10.negated().plus(t27));
    lemma_swap_terms(t9, t20.negated(), t28);
    S::law_minus(m.c0r0.times(c.3), m.c1r0.times(c.1));
    S::law_times_commutes(m.c0r0, c.3);
    S::law_times_commutes(m.c1r0, c.1);
    let t29 = c.1.times(m.c1r0).negated();
    S::law_plus_commutes(c.3.times(m.c0r0), t29);
    S::law_times_commutes(m.c2r0, c.0);
    S::law_plus_associates(t29, c.3.times(m.c0r0), c.0.times(m.c2r0));
    S::law_plus_commutes(c.3.times(m.c0r0), c.0.times(m.c2r0));
    lemma_swap_terms(t29, c.0.times(m.c2r0), c.3.times(m.c0r0));
    let t30 = t29.plus(c.3.times(m.c0r0));
    S::law_distributes(u.w, c.0.times(m.c2r0), t30);
    lemma_swap_factors(u.w, c.0, m.c2r0);
    S::law_times_commutes(u.w, m.c2r0);
    S::law_distributes(u.w, t29, c.3.times(m.c0r0));
    lemma_times_negated(u.w, c.1.times(m.c1r0));
    lemma_swap_factors(u.w, c.1, m.c1r0);
    S::law_times_commutes(u.w, m.c1r0);
    lemma_swap_factors(u.w, c.3, m.c0r0);
    S::law_times_commutes(u.w, m.c0r0);
    let t31 = c.0.times(m.c2r0.times(u.w));
    let t32 = c.1.times(m.c1r0.times(u.w));
    let t33 = c.3.times(m.c0r0.times(u.w));
    let t34 = t31.plus(t32.negated().plus(t33));
    S::law_plus_associates(t20.negated(), t9.plus(t28), t34);
    S::law_plus_associates(t9, t28, t34);
    S::law_plus_associates(t21, t10.negated().plus(t27), t34);
    S::law_plus_associates(t10.negated(), t27, t34);
    S::law_plus_associates(t6.negated(), t22.negated().plus(t14), t34);
    S::law_plus_associates(t22.negated(), t14, t34);
    S::law_plus_associates(t7, t11.plus(t8.negated()), t34);
    S::law_plus_associates(t11, t8.negated(), t34);
    lemma_swap_terms(t8.negated(), t31, t32.negated().plus(t33));
    lemma_swap_terms(t8.negated(), t32.negated(), t33);
    S::law_plus_commutes(t8.negated(), t33);
    let t35 = t32.negated().plus(t33.plus(t8.negated()));
    lemma_swap_terms(t11, t31, t35);
    lemma_swap_terms(t11, t32.negated(), t33.plus(t8.negated()));
    lemma_swap_terms(t11, t33, t8.negated());
    let t36 = t33.plus(t11.plus(t8.negated()));
    lemma_swap_terms(t7, t31, t32.negated().plus(t36));
    lemma_swap_terms(t7, t32.negated(), t36);
    lemma_swap_terms(t7, t33, t11.plus(t8.negated()));
    let t37 = t32.negated().plus(t33.plus(t14));
    lemma_swap_terms(t22.negated(), t31, t37);
    lemma_swap_terms(t22.negated(), t32.negated(), t33.plus(t14));
    lemma_swap_terms(t22.negated(), t33, t14);
    let t38 = t33.plus(t22.negated().plus(t14));
    lemma_swap_terms(t6.negated(), t31, t32.negated().plus(t38));
    lemma_swap_terms(t6.negated(), t32.negated(), t38);
    lemma_swap_terms(t6.negated(), t33, t22.negated().plus(t14));
    let t39 = t32.negated().plus(t33.plus(t27));
    lemma_swap_terms(t10.negated(), t31, t39);
    lemma_swap_terms(t10.negated(), t32.negated(), t33.plus(t27));
    let t40 = t10.negated().plus(t33.plus(t27));
    lemma_swap_terms(t21, t31, t32.negated().plus(t40));
    lemma_swap_terms(t21, t32.negated(), t40);
    let t41 = t32.negated().plus(t21.plus(t40));
    lemma_swap_terms(t9, t31, t41);
    lemma_swap_terms(t9, t32.negated(), t21.plus(t40));
    let t42 = t32.negated().plus(t9.plus(t21.plus(t40)));
    lemma_swap_terms(t20.negated(), t31, t42);
    let t43 = m.c0r0.times(u.y).minus(u.x.times(m.c1r0));
    let t44 = m.c0r0.times(u.z).minus(u.x.times(m.c2r0));
    let t45 = t43.times(c.5).minus(t44.times(c.4));
    let t46 = m.c0r0.times(u.w).minus(u.x.times(m.c3r0));
    let t47 = m.c1r0.times(u.z).minus(u.y.times(m.c2r0));
    let t48 = t45.plus(t46.times(c.3)).plus(t47.times(c.2));
    let t49 = m.c1r0.times(u.w).minus(u.y.times(m.c3r0));
    S::law_minus(t48, t49.times(c.1));
    S::law_minus(t43.times(c.5), t44.times(c.4));
    S::law_minus(m.c0r0.times(u.y), u.x.times(m.c1r0));
    S::law_times_commutes(u.x, m.c1r0);
    let t50 = m.c1r0.times(u.x).negated();
    lemma_distributes_right(m.c0r0.times(u.y), t50, c.5);
    S::law_times_associates(m.c0r0, u.y, c.5);
    S::law_times_commutes(u.y, c.5);
    lemma_swap_factors(m.c0r0, c.5, u.y);
    lemma_negated_times(m.c1r0.times(u.x), c.5);
    S::law_times_associates(m.c1r0, u.x, c.5);
    S::law_times_commutes(u.x, c.5);
    lemma_swap_factors(m.c1r0, c.5, u.x);
    S::law_minus(m.c0r0.times(u.z), u.x.times(m.c2r0));
    S::law_times_commutes(u.x, m.c2r0);
    let t51 = m.c2r0.times(u.x).negated();
    lemma_distributes_right(m.c0r0.times(u.z), t51, c.4);
    S::law_times_associates(m.c0r0, u.z, c.4);
    S::law_times_commutes(u.z, c.4);
    lemma_swap_factors(m.c0r0, c.4, u.z);
    lemma_negated_times(m.c2r0.times(u.x), c.4);
    S::law_times_associates(m.c2r0, u.x, c.4);
    S::law_times_commutes(u.x, c.4);
    lemma_swap_factors(m.c2r0, c.4, u.x);
    lemma_negated_sum(t22, t7.negated());
    lemma_negated_twice(t7);
    S::law_plus_associates(t11, t8.negated(), t22.negated().plus(t7));
    lemma_swap_terms(t8.negated(), t22.negated(), t7);
    S::law_plus_commutes(t8.negated(), t7);
    lemma_swap_terms(t11, t22.negated(), t7.plus(t8.negated()));
    lemma_swap_terms(t11, t7, t8.negated());
    S::law_minus(m.c0r0.times(u.w), u.x.times(m.c3r0));
    S::law_times_commutes(u.x, m.c3r0);
    let t52 = m.c3r0.times(u.x).negated();
    lemma_distributes_right(m.c0r0.times(u.w), t52, c.3);
    S::law_times_associates(m.c0r0, u.w, c.3);
    S::law_times_commutes(u.w, c.3);
    lemma_swap_factors(m.c0r0, c.3, u.w);
    lemma_negated_times(m.c3r0.times(u.x), c.3);
    S::law_times_associates(m.c3r0, u.x, c.3);
    S::law_times_commutes(u.x, c.3);
    lemma_swap_factors(m.c3r0, c.3, u.x);
    S::law_plus_associates(t22.negated(), t14, t33.plus(t6.negated()));
    S::law_plus_associates(t7, t11.plus(t8.negated()), t33.plus(t6.negated()));
    S::law_plus_associates(t11, t8.negated(), t33.plus(t6.negated()));
    lemma_swap_terms(t8.negated(), t33, t6.negated());
    S::law_plus_commutes(t8.negated(), t6.negated());
    let t53 = t6.negated().plus(t8.negated());
    lemma_swap_terms(t11, t33, t53);
    lemma_swap_terms(t11, t6.negated(), t8.negated());
    let t54 = t6.negated().plus(t11.plus(t8.negated()));
    lemma_swap_terms(t7, t33, t54);
    lemma_swap_terms(t7, t6.negated(), t11.plus(t8.negated()));
    lemma_swap_terms(t22.negated(), t33, t6.negated().plus(t14));
    lemma_swap_terms(t22.negated(), t6.negated(), t14);
    S::law_minus(m.c1r0.times(u.z), u.y.times(m.c2r0));
    S::law_times_commutes(u.y, m.c2r0);
    let t55 = m.c2r0.times(u.y).negated();
    lemma_distributes_right(m.c1r0.times(u.z), t55, c.2);
    S::law_times_associates(m.c1r0, u.z, c.2);
    S::law_times_commutes(u.z, c.2);
    lemma_swap_factors(m.c1r0, c.2, u.z);
    lemma_negated_times(m.c2r0.times(u.y), c.2);
    S::law_times_associates(m.c2r0, u.y, c.2);
    S::law_times_commutes(u.y, c.2);
    lemma_swap_factors(m.c2r0, c.2, u.y);
    S::law_plus_associates(t33, t27, t21.plus(t10.negated()));
    S::law_plus_associates(t6.negated(), t22.negated().plus(t14), t21.plus(t10.negated()));
    S::law_plus_associates(t22.negated(), t14, t21.plus(t10.negated()));
    S::law_plus_associates(t7, t11.plus(t8.negated()), t21.plus(t10.negated()));
    S::law_plus_associates(t11, t8.negated(), t21.plus(t10.negated()));
    lemma_swap_terms(t8.negated(), t21, t10.negated());
    S::law_plus_commutes(t8.negated(), t10.negated());
    let t56 = t10.negated().plus(t8.negated());
    lemma_swap_terms(t11, t21, t56);
    lemma_swap_terms(t11, t10.negated(), t8.negated());
    lemma_swap_terms(t7, t21, t13);
    lemma_swap_terms(t7, t10.negated(), t11.plus(t8.negated()));
    lemma_swap_terms(t22.negated(), t21, t10.negated().plus(t14));
    lemma_swap_terms(t22.negated(), t10.negated(), t14);
    let t57 = t10.negated().plus(t22.negated().plus(t14));
    lemma_swap_terms(t6.negated(), t21, t57);
    lemma_swap_terms(t6.negated(), t10.negated(), t22.negated().plus(t14));
    lemma_swap_terms(t33, t21, t10.negated().plus(t27));
    lemma_swap_terms(t33, t10.negated(), t27);
    S::law_minus(m.c1r0.times(u.w), u.y.times(m.c3r0));
    S::law_times_commutes(u.y, m.c3r0);
    let t58 = m.c3r0.times(u.y).negated();
    lemma_distributes_right(m.c1r0.times(u.w), t58, c.1);
    S::law_times_associates(m.c1r0, u.w, c.1);
    S::law_times_commutes(u.w, c.1);
    lemma_swap_factors(m.c1r0, c.1, u.w);
    lemma_negated_times(m.c3r0.times(u.y), c.1);
    S::law_times_associates(m.c3r0, u.y, c.1);
    S::law_times_commutes(u.y, c.1);
    lemma_swap_factors(m.c3r0, c.1, u.y);
    lemma_negated_sum(t32, t9.negated());
    lemma_negated_twice(t9);
    S::law_plus_associates(t21, t40, t32.negated().plus(t9));
    S::law_plus_associates(t10.negated(), t33.plus(t27), t32.negated().plus(t9));
    S::law_plus_associates(t33, t27, t32.negated().plus(t9));
    S::law_plus_associates(t6.negated(), t22.negated().plus(t14), t32.negated().plus(t9));
    S::law_plus_associates(t22.negated(), t14, t32.negated().plus(t9));
    S::law_plus_associates(t7, t11.plus(t8.negated()), t32.negated().plus(t9));
    S::law_plus_associates(t11, t8.negated(), t32.negated().plus(t9));
    lemma_swap_terms(t8.negated(), t32.negated(), t9);
    S::law_plus_commutes(t8.negated(), t9);
    lemma_swap_terms(t11, t32.negated(), t9.plus(t8.negated()));
    lemma_swap_terms(t11, t9, t8.negated());
    let t59 = t9.plus(t11.plus(t8.negated()));
    lemma_swap_terms(t7, t32.negated(), t59);
    lemma_swap_terms(t7, t9, t11.plus(t8.negated()));
    lemma_swap_terms(t22.negated(), t32.negated(), t9.plus(t14));
    lemma_swap_terms(t22.negated(), t9, t14);
    let t60 = t9.plus(t22.negated().plus(t14));
    lemma_swap_terms(t6.negated(), t32.negated(), t60);
    lemma_swap_terms(t6.negated(), t9, t22.negated().plus(t14));
    lemma_swap_terms(t33, t32.negated(), t9.plus(t27));
    lemma_swap_terms(t33, t9, t27);
    lemma_swap_terms(t10.negated(), t32.negated(), t9.plus(t33.plus(t27)));
    lemma_swap_terms(t10.negated(), t9, t33.plus(t27));
    lemma_swap_terms(t21, t32.negated(), t9.plus(t40));
    lemma_swap_terms(t21, t9, t40);
    S::law_minus(m.c2r0.times(u.w), u.z.times(m.c3r0));
    S::law_times_commutes(u.z, m.c3r0);
    let t61 = m.c3r0.times(u.z).negated();
    lemma_distributes_right(m.c2r0.times(u.w), t61, c.0);
    S::law_times_associates(m.c2r0, u.w, c.0);
    S::law_times_commutes(u.w, c.0);
    lemma_swap_factors(m.c2r0, c.0, u.w);
    lemma_negated_times(m.c3r0.times(u.z), c.0);
    S::law_times_associates(m.c3r0, u.z, c.0);
    S::law_times_commutes(u.z, c.0);
    lemma_swap_factors(m.c3r0, c.0, u.z);
    S::law_plus_associates(t32.negated(), t9.plus(t21.plus(t40)), t31.plus(t20.negated()));
    S::law_plus_associates(t9, t21.plus(t40), t31.plus(t20.negated()));
    S::law_plus_associates(t21, t40, t31.plus(t20.negated()));
    S::law_plus_associates(t10.negated(), t33.plus(t27), t31.plus(t20.negated()));
    S::law_plus_associates(t33, t27, t31.plus(t20.negated()));
    S::law_plus_associates(t6.negated(), t22.negated().plus(t14), t31.plus(t20.negated()));
    S::law_plus_associates(t22.negated(), t14, t31.plus(t20.negated()));
    S::law_plus_associates(t7, t11.plus(t8.negated()), t31.plus(t20.negated()));
    S::law_plus_associates(t11, t8.negated(), t31.plus(t20.negated()));
    lemma_swap_terms(t8.negated(), t31, t20.negated());
    S::law_plus_commutes(t8.negated(), t20.negated());
    let t62 = t20.negated().plus(t8.negated());
    lemma_swap_terms(t11, t31, t62);
    lemma_swap_terms(t11, t20.negated(), t8.negated());
    let t63 = t20.negated().plus(t11.plus(t8.negated()));
    lemma_swap_terms(t7, t31, t63);
    lemma_swap_terms(t7, t20.negated(), t11.plus(t8.negated()));
    lemma_swap_terms(t22.negated(), t31, t20.negated().plus(t14));
    lemma_swap_terms(t22.negated(), t20.negated(), t14);
    let t64 = t20.negated().plus(t22.negated().plus(t14));
    lemma_swap_terms(t6.negated(), t31, t64);
    lemma_swap_terms(t6.negated(), t20.negated(), t22.negated().plus(t14));
    lemma_swap_terms(t33, t31, t20.negated().plus(t27));
    lemma_swap_terms(t33, t20.negated(), t27);
    let t65 = t20.negated().plus(t33.plus(t27));
    lemma_swap_terms(t10.negated(), t31, t65);
    lemma_swap_terms(t10.negated(), t20.negated(), t33.plus(t27));
    lemma_swap_terms(t21, t31, t20.negated().plus(t40));
    lemma_swap_terms(t21, t20.negated(), t40);
    let t66 = t20.negated().plus(t21.plus(t40));
    lemma_swap_terms(t9, t31, t66);
    lemma_swap_terms(t9, t20.negated(), t21.plus(t40));
    let t67 = t20.negated().plus(t9.plus(t21.plus(t40)));
    lemma_swap_terms(t32.negated(), t31, t67);
    lemma_swap_terms(t32.negated(), t20.negated(), t9.plus(t21.plus(t40)));
}

/// A vector dotted with column 2 of the adjugate is a determinant by Laplace
/// expansion, with the vector in place of a row.
proof fn lemma_adjugate4_column2<S: Field>(u: Vector4<S>, m: Matrix4x4<S>)
    ensures
        u.dot_product(m.adjugate().col2()) == wedge(m.upper_minors(), minors(u, m.row3())),
{
    let s = m.upper_minors();
    S::law_minus(m.c1r3.times(s.5), m.c2r3.times(s.4));
    let t0 = m.c2r3.times(s.4).negated();
    S::law_plus_associates(m.c1r3.times(s.5), t0, m.c3r3.times(s.3));
    let t1 = t0.plus(m.c3r3.times(s.3));
    S::law_distributes(u.x, m.c1r3.times(s.5), t1);
    lemma_swap_factors(u.x, m.c1r3, s.5);
    S::law_times_commutes(u.x, s.5);
    S::law_distributes(u.x, t0, m.c3r3.times(s.3));
    lemma_times_negated(u.x, m.c2r3.times(s.4));
    lemma_swap_factors(u.x, m.c2r3, s.4);
    S::law_times_commutes(u.x, s.4);
    lemma_swap_factors(u.x, m.c3r3, s.3);
    S::law_times_commutes(u.x, s.3);
    let t2 = m.c2r3.times(s.2).minus(m.c0r3.times(s.5));
    S::law_minus(t2, m.c3r3.times(s.1));
    S::law_minus(m.c2r3.times(s.2), m.c0r3.times(s.5));
    let t3 = m.c0r3.times(s.5).negated();
    S::law_plus_commutes(m.c2r3.times(s.2), t3);
    let t4 = m.c3r3.times(s.1).negated();
    S::law_plus_associates(t3, m.c2r3.times(s.2), t4);
    let t5 = m.c2r3.times(s.2).plus(t4);
    S::law_distributes(u.y, t3, t5);
    lemma_times_negated(u.y, m.c0r3.times(s.5));
    lemma_swap_factors(u.y, m.c0r3, s.5);
    S::law_times_commutes(u.y, s.5);
    S::law_distributes(u.y, m.c2r3.times(s.2), t4);
    lemma_swap_factors(u.y, m.c2r3, s.2);
    S::law_times_commutes(u.y, s.2);
    lemma_times_negated(u.y, m.c3r3.times(s.1));
    lemma_swap_factors(u.y, m.c3r3, s.1);
    S::law_times_commutes(u.y, s.1);
    let t6 = m.c1r3.times(s.5.times(u.x));
    let t7 = m.c2r3.times(s.4.times(u.x));
    let t8 = m.c3r3.times(s.3.times(u.x));
    let t9 = m.c0r3.times(s.5.times(u.y));
    let t10 = m.c2r3.times(s.2.times(u.y));
    let t11 = m.c3r3.times(s.1.times(u.y));
    let t12 = t9.negated().plus(t10.plus(t11.negated()));
    S::law_plus_associates(t6, t7.negated().plus(t8), t12);
    S::law_plus_associates(t7.negated(), t8, t12);
    lemma_swap_terms(t8, t9.negated(), t10.plus(t11.negated()));
    lemma_swap_terms(t8, t10, t11.negated());
    S::law_plus_commutes(t8, t11.negated());
    let t13 = t10.plus(t11.negated().plus(t8));
    lemma_swap_terms(t7.negated(), t9.negated(), t13);
    lemma_swap_terms(t7.negated(), t10, t11.negated().plus(t8));
    let t14 = t7.negated().plus(t11.negated().plus(t8));
    lemma_swap_terms(t6, t9.negated(), t10.plus(t14));
    S::law_minus(m.c0r3.times(s.4), m.c1r3.times(s.2));
    let t15 = m.c1r3.times(s.2).negated();
    S::law_plus_associates(m.c0r3.times(s.4), t15, m.c3r3.times(s.0));
    let t16 = t15.plus(m.c3r3.times(s.0));
    S::law_distributes(u.z, m.c0r3.times(s.4), t16);
    lemma_swap_factors(u.z, m.c0r3, s.4);
    S::law_times_commutes(u.z, s.4);
    S::law_distributes(u.z, t15, m.c3r3.times(s.0));
    lemma_times_negated(u.z, m.c1r3.times(s.2));
    lemma_swap_factors(u.z, m.c1r3, s.2);
    S::law_times_commutes(u.z, s.2);
    lemma_swap_factors(u.z, m.c3r3, s.0);
    S::law_times_commutes(u.z, s.0);
    let t17 = m.c0r3.times(s.4.times(u.z));
    let t18 = m.c1r3.times(s.2.times(u.z));
    let t19 = m.c3r3.times(s.0.times(u.z));
    let t20 = t17.plus(t18.negated().plus(t19));
    S::law_plus_associates(t9.negated(), t6.plus(t10.plus(t14)), t20);
    S::law_plus_associates(t6, t10.plus(t14), t20);
    S::law_plus_associates(t10, t14, t20);
    S::law_plus_associates(t7.negated(), t11.negated().plus(t8), t20);
    S::law_plus_associates(t11.negated(), t8, t20);
    lemma_swap_terms(t8, t17, t18.negated().plus(t19));
    lemma_swap_terms(t8, t18.negated(), t19);
    S::law_plus_commutes(t8, t19);
    let t21 = t18.negated().plus(t19.plus(t8));
    lemma_swap_terms(t11.negated(), t17, t21);
    lemma_swap_terms(t11.negated(), t18.negated(), t19.plus(t8));
    lemma_swap_terms(t11.negated(), t19, t8);
    let t22 = t19.plus(t11.negated().plus(t8));
    lemma_swap_terms(t7.negated(), t17, t18.negated().plus(t22));
    lemma_swap_terms(t7.negated(), t18.negated(), t22);
    let t23 = t18.negated().plus(t7.negated().plus(t22));
    lemma_swap_terms(t10, t17, t23);
    lemma_swap_terms(t10, t18.negated(), t7.negated().plus(t22));
    let t24 = t10.plus(t7.negated().plus(t22));
    lemma_swap_terms(t6, t17, t18.negated().plus(t24));
    lemma_swap_terms(t6, t18.negated(), t24);
    let t25 = t18.negated().plus(t6.plus(t24));
    lemma_swap_terms(t9.negated(), t17, t25);
    let t26 = m.c1r3.times(s.1).minus(m.c0r3.times(s.3));
    S::law_minus(t26, m.c2r3.times(s.0));
    S::law_minus(m.c1r3.times(s.1), m.c0r3.times(s.3));
    let t27 = m.c0r3.times(s.3).negated();
    S::law_plus_commutes(m.c1r3.times(s.1), t27);
    let t28 = m.c2r3.times(s.0).negated();
    S::law_plus_associates(t27, m.c1r3.times(s.1), t28);
    let t29 = m.c1r3.times(s.1).plus(t28);
    S::law_distributes(u.w, t27, t29);
    lemma_times_negated(u.w, m.c0r3.times(s.3));
    lemma_swap_factors(u.w, m.c0r3, s.3);
    S::law_times_commutes(u.w, s.3);
    S::law_distributes(u.w, m.c1r3.times(s.1), t28);
    lemma_swap_factors(u.w, m.c1r3, s.1);
    S::law_times_commutes(u.w, s.1);
    lemma_times_negated(u.w, m.c2r3.times(s.0));
    lemma_swap_factors(u.w, m.c2r3, s.0);
    S::law_times_commutes(u.w, s.0);
    let t30 = m.c0r3.times(s.3.times(u.w));
    let t31 = m.c1r3.times(s.1.times(u.w));
    let t32 = m.c2r3.times(s.0.times(u.w));
    let t33 = t30.negated().plus(t31.plus(t32.negated()));
    S::law_plus_associates(t17, t9.negated().plus(t25), t33);
    S::law_plus_associates(t9.negated(), t25, t33);
    S::law_plus_associates(t18.negated(), t6.plus(t24), t33);
    S::law_plus_associates(t6, t24, t33);
    S::law_plus_associates(t10, t7.negated().plus(t22), t33);
    S::law_plus_associates(t7.negated(), t22, t33);
    S::law_plus_associates(t19, t11.negated().plus(t8), t33);
    S::law_plus_associates(t11.negated(), t8, t33);
    lemma_swap_terms(t8, t30.negated(), t31.plus(t32.negated()));
    lemma_swap_terms(t8, t31, t32.negated());
    S::law_plus_commutes(t8, t32.negated());
    let t34 = t31.plus(t32.negated().plus(t8));
    lemma_swap_terms(t11.negated(), t30.negated(), t34);
    lemma_swap_terms(t11.negated(), t31, t32.negated().plus(t8));
    lemma_swap_terms(t11.negated(), t32.negated(), t8);
    let t35 = t32.negated().plus(t11.negated().plus(t8));
    lemma_swap_terms(t19, t30.negated(), t31.plus(t35));
    lemma_swap_terms(t19, t31, t35);
    lemma_swap_terms(t19, t32.negated(), t11.negated().plus(t8));
    let t36 = t31.plus(t32.negated().plus(t22));
    lemma_swap_terms(t7.negated(), t30.negated(), t36);
    lemma_swap_terms(t7.negated(), t31, t32.negated().plus(t22));
    lemma_swap_terms(t7.negated(), t32.negated(), t22);
    let t37 = t32.negated().plus(t7.negated().plus(t22));
    lemma_swap_terms(t10, t30.negated(), t31.plus(t37));
    lemma_swap_terms(t10, t31, t37);
    lemma_swap_terms(t10, t32.negated(), t7.negated().plus(t22));
    let t38 = t31.plus(t32.negated().plus(t24));
    lemma_swap_terms(t6, t30.negated(), t38);
    lemma_swap_terms(t6, t31, t32.negated().plus(t24));
    let t39 = t6.plus(t32.negated().plus(t24));
    lemma_swap_terms(t18.negated(), t30.negated(), t31.plus(t39));
    lemma_swap_terms(t18.negated(), t31, t39);
    let t40 = t31.plus(t18.negated().plus(t39));
    lemma_swap_terms(t9.negated(), t30.negated(), t40);
    lemma_swap_terms(t17, t30.negated(), t9.negated().plus(t40));
    let t41 = u.z.times(m.c3r3).minus(m.c2r3.times(u.w));
    let t42 = u.y.times(m.c3r3).minus(m.c1r3.times(u.w));
    let t43 = s.0.times(t41).minus(s.1.times(t42));
    let t44 = u.y.times(m.c2r3).minus(m.c1r3.times(u.z));
    let t45 = u.x.times(m.c3r3).minus(m.c0r3.times(u.w));
    let t46 = t43.plus(s.2.times(t44)).plus(s.3.times(t45));
    let t47 = u.x.times(m.c2r3).minus(m.c0r3.times(u.z));
    S::law_minus(t46, s.4.times(t47));
    S::law_minus(s.0.times(t41), s.1.times(t42));
    S::law_minus(u.z.times(m.c3r3), m.c2r3.times(u.w));
    S::law_times_commutes(u.z, m.c3r3);
    let t48 = m.c2r3.times(u.w).negated();
    S::law_plus_commutes(m.c3r3.times(u.z), t48);
    S::law_distributes(s.0, t48, m.c3r3.times(u.z));
    lemma_times_negated(s.0, m.c2r3.times(u.w));
    lemma_swap_factors(s.0, m.c2r3, u.w);
    lemma_swap_factors(s.0, m.c3r3, u.z);
    S::law_minus(u.y.times(m.c3r3), m.c1r3.times(u.w));
    S::law_times_commutes(u.y, m.c3r3);
    let t49 = m.c1r3.times(u.w).negated();
    S::law_plus_commutes(m.c3r3.times(u.y), t49);
    S::law_distributes(s.1, t49, m.c3r3.times(u.y));
    lemma_times_negated(s.1, m.c1r3.times(u.w));
    lemma_swap_factors(s.1, m.c1r3, u.w);
    lemma_swap_factors(s.1, m.c3r3, u.y);
    lemma_negated_sum(t31.negated(), t11);
    lemma_negated_twice(t31);
    S::law_plus_associates(t32.negated(), t19, t31.plus(t11.negated()));
    lemma_swap_terms(t19, t31, t11.negated());
    lemma_swap_terms(t32.negated(), t31, t19.plus(t11.negated()));
    S::law_minus(u.y.times(m.c2r3), m.c1r3.times(u.z));
    S::law_times_commutes(u.y, m.c2r3);
    let t50 = m.c1r3.times(u.z).negated();
    S::law_plus_commutes(m.c2r3.times(u.y), t50);
    S::law_distributes(s.2, t50, m.c2r3.times(u.y));
    lemma_times_negated(s.2, m.c1r3.times(u.z));
    lemma_swap_factors(s.2, m.c1r3, u.z);
    lemma_swap_factors(s.2, m.c2r3, u.y);
    let t51 = t32.negated().plus(t19.plus(t11.negated()));
    S::law_plus_associates(t31, t51, t18.negated().plus(t10));
    S::law_plus_associates(t32.negated(), t19.plus(t11.negated()), t18.negated().plus(t10));
    S::law_plus_associates(t19, t11.negated(), t18.negated().plus(t10));
    lemma_swap_terms(t11.negated(), t18.negated(), t10);
    S::law_plus_commutes(t11.negated(), t10);
    lemma_swap_terms(t19, t18.negated(), t10.plus(t11.negated()));
    lemma_swap_terms(t19, t10, t11.negated());
    let t52 = t10.plus(t19.plus(t11.negated()));
    lemma_swap_terms(t32.negated(), t18.negated(), t52);
    S::law_minus(u.x.times(m.c3r3), m.c0r3.times(u.w));
    S::law_times_commutes(u.x, m.c3r3);
    let t53 = m.c0r3.times(u.w).negated();
    S::law_plus_commutes(m.c3r3.times(u.x), t53);
    S::law_distributes(s.3, t53, m.c3r3.times(u.x));
    lemma_times_negated(s.3, m.c0r3.times(u.w));
    lemma_swap_factors(s.3, m.c0r3, u.w);
    lemma_swap_factors(s.3, m.c3r3, u.x);
    let t54 = t18.negated().plus(t32.negated().plus(t52));
    S::law_plus_associates(t31, t54, t30.negated().plus(t8));
    S::law_plus_associates(t18.negated(), t32.negated().plus(t52), t30.negated().plus(t8));
    S::law_plus_associates(t32.negated(), t52, t30.negated().plus(t8));
    S::law_plus_associates(t10, t19.plus(t11.negated()), t30.negated().plus(t8));
    S::law_plus_associates(t19, t11.negated(), t30.negated().plus(t8));
    lemma_swap_terms(t11.negated(), t30.negated(), t8);
    lemma_swap_terms(t19, t30.negated(), t11.negated().plus(t8));
    lemma_swap_terms(t10, t30.negated(), t22);
    lemma_swap_terms(t32.negated(), t30.negated(), t10.plus(t22));
    let t55 = t32.negated().plus(t10.plus(t22));
    lemma_swap_terms(t18.negated(), t30.negated(), t55);
    lemma_swap_terms(t31, t30.negated(), t18.negated().plus(t55));
    S::law_minus(u.x.times(m.c2r3), m.c0r3.times(u.z));
    S::law_times_commutes(u.x, m.c2r3);
    let t56 = m.c0r3.times(u.z).negated();
    S::law_plus_commutes(m.c2r3.times(u.x), t56);
    S::law_distributes(s.4, t56, m.c2r3.times(u.x));
    lemma_times_negated(s.4, m.c0r3.times(u.z));
    lemma_swap_factors(s.4, m.c0r3, u.z);
    lemma_swap_factors(s.4, m.c2r3, u.x);
    lemma_negated_sum(t17.negated(), t7);
    lemma_negated_twice(t17);
    let t57 = t31.plus(t18.negated().plus(t55));
    S::law_plus_associates(t30.negated(), t57, t17.plus(t7.negated()));
    S::law_plus_associates(t31, t18.negated().plus(t55), t17.plus(t7.negated()));
    S::law_plus_associates(t18.negated(), t55, t17.plus(t7.negated()));
    S::law_plus_associates(t32.negated(), t10.plus(t22), t17.plus(t7.negated()));
    S::law_plus_associates(t10, t22, t17.plus(t7.negated()));
    S::law_plus_associates(t19, t11.negated().plus(t8), t17.plus(t7.negated()));
    S::law_plus_associates(t11.negated(), t8, t17.plus(t7.negated()));
    lemma_swap_terms(t8, t17, t7.negated());
    S::law_plus_commutes(t8, t7.negated());
    lemma_swap_terms(t11.negated(), t17, t7.negated().plus(t8));
    lemma_swap_terms(t11.negated(), t7.negated(), t8);
    lemma_swap_terms(t19, t17, t14);
    lemma_swap_terms(t19, t7.negated(), t11.negated().plus(t8));
    lemma_swap_terms(t10, t17, t7.negated().plus(t22));
    lemma_swap_terms(t32.negated(), t17, t24);
    lemma_swap_terms(t18.negated(), t17, t32.negated().plus(t24));
    let t58 = t18.negated().plus(t32.negated().plus(t24));
    lemma_swap_terms(t31, t17, t58);
    S::law_minus(u.x.times(m.c1r3), m.c0r3.times(u.y));
    S::law_times_commutes(u.x, m.c1r3);
    let t59 = m.c0r3.times(u.y).negated();
    S::law_plus_commutes(m.c1r3.times(u.x), t59);
    S::law_distributes(s.5, t59, m.c1r3.times(u.x));
    lemma_times_negated(s.5, m.c0r3.times(u.y));
    lemma_swap_factors(s.5, m.c0r3, u.y);
    lemma_swap_factors(s.5, m.c1r3, u.x);
    S::law_plus_associates(t30.negated(), t17.plus(t31.plus(t58)), t9.negated().plus(t6));
    S::law_plus_associates(t17, t31.plus(t58), t9.negated().plus(t6));
    S::law_plus_associates(t31, t58, t9.negated().plus(t6));
    S::law_plus_associates(t18.negated(), t32.negated().plus(t24), t9.negated().plus(t6));
    S::law_plus_associates(t32.negated(), t24, t9.negated().plus(t6));
    S::law_plus_associates(t10, t7.negated().plus(t22), t9.negated().plus(t6));
    S::law_plus_associates(t7.negated(), t22, t9.negated().plus(t6));
    S::law_plus_associates(t19, t11.negated().plus(t8), t9.negated().plus(t6));
    S::law_plus_associates(t11.negated(), t8, t9.negated().plus(t6));
    lemma_swap_terms(t8, t9.negated(), t6);
    S::law_plus_commutes(t8, t6);
    lemma_swap_terms(t11.negated(), t9.negated(), t6.plus(t8));
    lemma_swap_terms(t11.negated(), t6, t8);
    let t60 = t6.plus(t11.negated().plus(t8));
    lemma_swap_terms(t19, t9.negated(), t60);
    lemma_swap_terms(t19, t6, t11.negated().plus(t8));
    lemma_swap_terms(t7.negated(), t9.negated(), t6.plus(t22));
    lemma_swap_terms(t7.negated(), t6, t22);
    let t61 = t6.plus(t7.negated().plus(t22));
    lemma_swap_terms(t10, t9.negated(), t61);
    lemma_swap_terms(t10, t6, t7.negated().plus(t22));
    lemma_swap_terms(t32.negated(), t9.negated(), t6.plus(t24));
    lemma_swap_terms(t32.negated(), t6, t24);
    lemma_swap_terms(t18.negated(), t9.negated(), t39);
    lemma_swap_terms(t31, t9.negated(), t18.negated().plus(t39));
}

/// A vector dotted with column 3 of the adjugate is a determinant by Laplace
/// expansion, with the vector in place of a row.
proof fn lemma_adjugate4_column3<S: Field>(u: Vector4<S>, m: Matrix4x4<S>)
    ensures
        u.dot_product(m.adjugate().col3()) == wedge(m.upper_minors(), minors(m.row2(), u)),
{
    let s = m.upper_minors();
    let t0 = m.c2r2.times(s.4).minus(m.c1r2.times(s.5));
    S::law_minus(t0, m.c3r2.times(s.3));
    S::law_minus(m.c2r2.times(s.4), m.c1r2.times(s.5));
    let t1 = m.c1r2.times(s.5).negated();
    S::law_plus_commutes(m.c2r2.times(s.4), t1);
    let t2 = m.c3r2.times(s.3).negated();
    S::law_plus_associates(t1, m.c2r2.times(s.4), t2);
    let t3 = m.c2r2.times(s.4).plus(t2);
    S::law_distributes(u.x, t1, t3);
    lemma_times_negated(u.x, m.c1r2.times(s.5));
    lemma_swap_factors(u.x, m.c1r2, s.5);
    S::law_times_commutes(u.x, s.5);
    S::law_distributes(u.x, m.c2r2.times(s.4), t2);
    lemma_swap_factors(u.x, m.c2r2, s.4);
    S::law_times_commutes(u.x, s.4);
    lemma_times_negated(u.x, m.c3r2.times(s.3));
    lemma_swap_factors(u.x, m.c3r2, s.3);
    S::law_times_commutes(u.x, s.3);
    S::law_minus(m.c0r2.times(s.5), m.c2r2.times(s.2));
    let t4 = m.c2r2.times(s.2).negated();
    S::law_plus_associates(m.c0r2.times(s.5), t4, m.c3r2.times(s.1));
    let t5 = t4.plus(m.c3r2.times(s.1));
    S::law_distributes(u.y, m.c0r2.times(s.5), t5);
    lemma_swap_factors(u.y, m.c0r2, s.5);
    S::law_times_commutes(u.y, s.5);
    S::law_distributes(u.y, t4, m.c3r2.times(s.1));
    lemma_times_negated(u.y, m.c2r2.times(s.2));
    lemma_swap_factors(u.y, m.c2r2, s.2);
    S::law_times_commutes(u.y, s.2);
    lemma_swap_factors(u.y, m.c3r2, s.1);
    S::law_times_commutes(u.y, s.1);
    let t6 = m.c1r2.times(s.5.times(u.x));
    let t7 = m.c2r2.times(s.4.times(u.x));
    let t8 = m.c3r2.times(s.3.times(u.x));
    let t9 = m.c0r2.times(s.5.times(u.y));
    let t10 = m.c2r2.times(s.2.times(u.y));
    let t11 = m.c3r2.times(s.1.times(u.y));
    let t12 = t9.plus(t10.negated().plus(t11));
    S::law_plus_associates(t6.negated(), t7.plus(t8.negated()), t12);
    S::law_plus_associates(t7, t8.negated(), t12);
    lemma_swap_terms(t8.negated(), t9, t10.negated().plus(t11));
    lemma_swap_terms(t8.negated(), t10.negated(), t11);
    S::law_plus_commutes(t8.negated(), t11);
    let t13 = t10.negated().plus(t11.plus(t8.negated()));
    lemma_swap_terms(t7, t9, t13);
    lemma_swap_terms(t7, t10.negated(), t11.plus(t8.negated()));
    let t14 = t7.plus(t11.plus(t8.negated()));
    lemma_swap_terms(t6.negated(), t9, t10.negated().plus(t14));
    let t15 = m.c1r2.times(s.2).minus(m.c0r2.times(s.4));
    S::law_minus(t15, m.c3r2.times(s.0));
    S::law_minus(m.c1r2.times(s.2), m.c0r2.times(s.4));
    let t16 = m.c0r2.times(s.4).negated();
    S::law_plus_commutes(m.c1r2.times(s.2), t16);
    let t17 = m.c3r2.times(s.0).negated();
    S::law_plus_associates(t16, m.c1r2.times(s.2), t17);
    let t18 = m.c1r2.times(s.2).plus(t17);
    S::law_distributes(u.z, t16, t18);
    lemma_times_negated(u.z, m.c0r2.times(s.4));
    lemma_swap_factors(u.z, m.c0r2, s.4);
    S::law_times_commutes(u.z, s.4);
    S::law_distributes(u.z, m.c1r2.times(s.2), t17);
    lemma_swap_factors(u.z, m.c1r2, s.2);
    S::law_times_commutes(u.z, s.2);
    lemma_times_negated(u.z, m.c3r2.times(s.0));
    lemma_swap_factors(u.z, m.c3r2, s.0);
    S::law_times_commutes(u.z, s.0);
    let t19 = t6.negated().plus(t10.negated().plus(t14));
    let t20 = m.c0r2.times(s.4.times(u.z));
    let t21 = m.c1r2.times(s.2.times(u.z));
    let t22 = m.c3r2.times(s.0.times(u.z));
    let t23 = t20.negated().plus(t21.plus(t22.negated()));
    S::law_plus_associates(t9, t19, t23);
    S::law_plus_associates(t6.negated(), t10.negated().plus(t14), t23);
    S::law_plus_associates(t10.negated(), t14, t23);
    S::law_plus_associates(t7, t11.plus(t8.negated()), t23);
    S::law_plus_associates(t11, t8.negated(), t23);
    lemma_swap_terms(t8.negated(), t20.negated(), t21.plus(t22.negated()));
    lemma_swap_terms(t8.negated(), t21, t22.negated());
    S::law_plus_commutes(t8.negated(), t22.negated());
    let t24 = t22.negated().plus(t8.negated());
    lemma_swap_terms(t11, t20.negated(), t21.plus(t24));
    lemma_swap_terms(t11, t21, t24);
    lemma_swap_terms(t11, t22.negated(), t8.negated());
    let t25 = t22.negated().plus(t11.plus(t8.negated()));
    lemma_swap_terms(t7, t20.negated(), t21.plus(t25));
    lemma_swap_terms(t7, t21, t25);
    lemma_swap_terms(t10.negated(), t20.negated(), t21.plus(t7.plus(t25)));
    lemma_swap_terms(t10.negated(), t21, t7.plus(t25));
    let t26 = t10.negated().plus(t7.plus(t25));
    lemma_swap_terms(t6.negated(), t20.negated(), t21.plus(t26));
    lemma_swap_terms(t6.negated(), t21, t26);
    let t27 = t21.plus(t6.negated().plus(t26));
    lemma_swap_terms(t9, t20.negated(), t27);
    S::law_minus(m.c0r2.times(s.3), m.c1r2.times(s.1));
    let t28 = m.c1r2.times(s.1).negated();
    S::law_plus_associates(m.c0r2.times(s.3), t28, m.c2r2.times(s.0));
    let t29 = t28.plus(m.c2r2.times(s.0));
    S::law_distributes(u.w, m.c0r2.times(s.3), t29);
    lemma_swap_factors(u.w, m.c0r2, s.3);
    S::law_times_commutes(u.w, s.3);
    S::law_distributes(u.w, t28, m.c2r2.times(s.0));
    lemma_times_negated(u.w, m.c1r2.times(s.1));
    lemma_swap_factors(u.w, m.c1r2, s.1);
    S::law_times_commutes(u.w, s.1);
    lemma_swap_factors(u.w, m.c2r2, s.0);
    S::law_times_commutes(u.w, s.0);
    let t30 = m.c0r2.times(s.3.times(u.w));
    let t31 = m.c1r2.times(s.1.times(u.w));
    let t32 = m.c2r2.times(s.0.times(u.w));
    let t33 = t30.plus(t31.negated().plus(t32));
    S::law_plus_associates(t20.negated(), t9.plus(t27), t33);
    S::law_plus_associates(t9, t27, t33);
    S::law_plus_associates(t21, t6.negated().plus(t26), t33);
    S::law_plus_associates(t6.negated(), t26, t33);
    S::law_plus_associates(t10.negated(), t7.plus(t25), t33);
    S::law_plus_associates(t7, t25, t33);
    S::law_plus_associates(t22.negated(), t11.plus(t8.negated()), t33);
    S::law_plus_associates(t11, t8.negated(), t33);
    lemma_swap_terms(t8.negated(), t30, t31.negated().plus(t32));
    lemma_swap_terms(t8.negated(), t31.negated(), t32);
    S::law_plus_commutes(t8.negated(), t32);
    let t34 = t31.negated().plus(t32.plus(t8.negated()));
    lemma_swap_terms(t11, t30, t34);
    lemma_swap_terms(t11, t31.negated(), t32.plus(t8.negated()));
    lemma_swap_terms(t11, t32, t8.negated());
    let t35 = t32.plus(t11.plus(t8.negated()));
    lemma_swap_terms(t22.negated(), t30, t31.negated().plus(t35));
    lemma_swap_terms(t22.negated(), t31.negated(), t35);
    lemma_swap_terms(t22.negated(), t32, t11.plus(t8.negated()));
    let t36 = t31.negated().plus(t32.plus(t25));
    lemma_swap_terms(t7, t30, t36);
    lemma_swap_terms(t7, t31.negated(), t32.plus(t25));
    lemma_swap_terms(t7, t32, t25);
    let t37 = t31.negated().plus(t32.plus(t7.plus(t25)));
    lemma_swap_terms(t10.negated(), t30, t37);
    lemma_swap_terms(t10.negated(), t31.negated(), t32.plus(t7.plus(t25)));
    lemma_swap_terms(t10.negated(), t32, t7.plus(t25));
    let t38 = t31.negated().plus(t32.plus(t26));
    lemma_swap_terms(t6.negated(), t30, t38);
    lemma_swap_terms(t6.negated(), t31.negated(), t32.plus(t26));
    let t39 = t6.negated().plus(t32.plus(t26));
    lemma_swap_terms(t21, t30, t31.negated().plus(t39));
    lemma_swap_terms(t21, t31.negated(), t39);
    let t40 = t31.negated().plus(t21.plus(t39));
    lemma_swap_terms(t9, t30, t40);
    lemma_swap_terms(t20.negated(), t30, t9.plus(t40));
    let t41 = m.c2r2.times(u.w).minus(u.z.times(m.c3r2));
    let t42 = m.c1r2.times(u.w).minus(u.y.times(m.c3r2));
    let t43 = s.0.times(t41).minus(s.1.times(t42));
    let t44 = m.c1r2.times(u.z).minus(u.y.times(m.c2r2));
    let t45 = m.c0r2.times(u.w).minus(u.x.times(m.c3r2));
    let t46 = t43.plus(s.2.times(t44)).plus(s.3.times(t45));
    let t47 = m.c0r2.times(u.z).minus(u.x.times(m.c2r2));
    S::law_minus(t46, s.4.times(t47));
    S::law_minus(s.0.times(t41), s.1.times(t42));
    S::law_minus(m.c2r2.times(u.w), u.z.times(m.c3r2));
    S::law_times_commutes(u.z, m.c3r2);
    let t48 = m.c3r2.times(u.z).negated();
    S::law_distributes(s.0, m.c2r2.times(u.w), t48);
    lemma_swap_factors(s.0, m.c2r2, u.w);
    lemma_times_negated(s.0, m.c3r2.times(u.z));
    lemma_swap_factors(s.0, m.c3r2, u.z);
    S::law_minus(m.c1r2.times(u.w), u.y.times(m.c3r2));
    S::law_times_commutes(u.y, m.c3r2);
    let t49 = m.c3r2.times(u.y).negated();
    S::law_distributes(s.1, m.c1r2.times(u.w), t49);
    lemma_swap_factors(s.1, m.c1r2, u.w);
    lemma_times_negated(s.1, m.c3r2.times(u.y));
    lemma_swap_factors(s.1, m.c3r2, u.y);
    lemma_negated_sum(t31, t11.negated());
    lemma_negated_twice(t11);
    S::law_plus_associates(t32, t22.negated(), t31.negated().plus(t11));
    lemma_swap_terms(t22.negated(), t31.negated(), t11);
    lemma_swap_terms(t32, t31.negated(), t22.negated().plus(t11));
    S::law_minus(m.c1r2.times(u.z), u.y.times(m.c2r2));
    S::law_times_commutes(u.y, m.c2r2);
    let t50 = m.c2r2.times(u.y).negated();
    S::law_distributes(s.2, m.c1r2.times(u.z), t50);
    lemma_swap_factors(s.2, m.c1r2, u.z);
    lemma_times_negated(s.2, m.c2r2.times(u.y));
    lemma_swap_factors(s.2, m.c2r2, u.y);
    let t51 = t32.plus(t22.negated().plus(t11));
    S::law_plus_associates(t31.negated(), t51, t21.plus(t10.negated()));
    S::law_plus_associates(t32, t22.negated().plus(t11), t21.plus(t10.negated()));
    S::law_plus_associates(t22.negated(), t11, t21.plus(t10.negated()));
    lemma_swap_terms(t11, t21, t10.negated());
    S::law_plus_commutes(t11, t10.negated());
    lemma_swap_terms(t22.negated(), t21, t10.negated().plus(t11));
    lemma_swap_terms(t22.negated(), t10.negated(), t11);
    let t52 = t10.negated().plus(t22.negated().plus(t11));
    lemma_swap_terms(t32, t21, t52);
    S::law_minus(m.c0r2.times(u.w), u.x.times(m.c3r2));
    S::law_times_commutes(u.x, m.c3r2);
    let t53 = m.c3r2.times(u.x).negated();
    S::law_distributes(s.3, m.c0r2.times(u.w), t53);
    lemma_swap_factors(s.3, m.c0r2, u.w);
    lemma_times_negated(s.3, m.c3r2.times(u.x));
    lemma_swap_factors(s.3, m.c3r2, u.x);
    S::law_plus_associates(t31.negated(), t21.plus(t32.plus(t52)), t30.plus(t8.negated()));
    S::law_plus_associates(t21, t32.plus(t52), t30.plus(t8.negated()));
    S::law_plus_associates(t32, t52, t30.plus(t8.negated()));
    S::law_plus_associates(t10.negated(), t22.negated().plus(t11), t30.plus(t8.negated()));
    S::law_plus_associates(t22.negated(), t11, t30.plus(t8.negated()));
    lemma_swap_terms(t11, t30, t8.negated());
    lemma_swap_terms(t22.negated(), t30, t11.plus(t8.negated()));
    lemma_swap_terms(t10.negated(), t30, t25);
    lemma_swap_terms(t32, t30, t10.negated().plus(t25));
    let t54 = t32.plus(t10.negated().plus(t25));
    lemma_swap_terms(t21, t30, t54);
    lemma_swap_terms(t31.negated(), t30, t21.plus(t54));
    S::law_minus(m.c0r2.times(u.z), u.x.times(m.c2r2));
    S::law_times_commutes(u.x, m.c2r2);
    let t55 = m.c2r2.times(u.x).negated();
    S::law_distributes(s.4, m.c0r2.times(u.z), t55);
    lemma_swap_factors(s.4, m.c0r2, u.z);
    lemma_times_negated(s.4, m.c2r2.times(u.x));
    lemma_swap_factors(s.4, m.c2r2, u.x);
    lemma_negated_sum(t20, t7.negated());
    lemma_negated_twice(t7);
    let t56 = t31.negated().plus(t21.plus(t54));
    S::law_plus_associates(t30, t56, t20.negated().plus(t7));
    S::law_plus_associates(t31.negated(), t21.plus(t54), t20.negated().plus(t7));
    S::law_plus_associates(t21, t54, t20.negated().plus(t7));
    S::law_plus_associates(t32, t10.negated().plus(t25), t20.negated().plus(t7));
    S::law_plus_associates(t10.negated(), t25, t20.negated().plus(t7));
    S::law_plus_associates(t22.negated(), t11.plus(t8.negated()), t20.negated().plus(t7));
    S::law_plus_associates(t11, t8.negated(), t20.negated().plus(t7));
    lemma_swap_terms(t8.negated(), t20.negated(), t7);
    S::law_plus_commutes(t8.negated(), t7);
    lemma_swap_terms(t11, t20.negated(), t7.plus(t8.negated()));
    lemma_swap_terms(t11, t7, t8.negated());
    lemma_swap_terms(t22.negated(), t20.negated(), t14);
    lemma_swap_terms(t22.negated(), t7, t11.plus(t8.negated()));
    lemma_swap_terms(t10.negated(), t20.negated(), t7.plus(t25));
    lemma_swap_terms(t32, t20.negated(), t26);
    lemma_swap_terms(t21, t20.negated(), t32.plus(t26));
    lemma_swap_terms(t31.negated(), t20.negated(), t21.plus(t32.plus(t26)));
    S::law_minus(m.c0r2.times(u.y), u.x.times(m.c1r2));
    S::law_times_commutes(u.x, m.c1r2);
    let t57 = m.c1r2.times(u.x).negated();
    S::law_distributes(s.5, m.c0r2.times(u.y), t57);
    lemma_swap_factors(s.5, m.c0r2, u.y);
    lemma_times_negated(s.5, m.c1r2.times(u.x));
    lemma_swap_factors(s.5, m.c1r2, u.x);
    let t58 = t31.negated().plus(t21.plus(t32.plus(t26)));
    S::law_plus_associates(t30, t20.negated().plus(t58), t9.plus(t6.negated()));
    S::law_plus_associates(t20.negated(), t58, t9.plus(t6.negated()));
    S::law_plus_associates(t31.negated(), t21.plus(t32.plus(t26)), t9.plus(t6.negated()));
    S::law_plus_associates(t21, t32.plus(t26), t9.plus(t6.negated()));
    S::law_plus_associates(t32, t26, t9.plus(t6.negated()));
    S::law_plus_associates(t10.negated(), t7.plus(t25), t9.plus(t6.negated()));
    S::law_plus_associates(t7, t25, t9.plus(t6.negated()));
    S::law_plus_associates(t22.negated(), t11.plus(t8.negated()), t9.plus(t6.negated()));
    S::law_plus_associates(t11, t8.negated(), t9.plus(t6.negated()));
    lemma_swap_terms(t8.negated(), t9, t6.negated());
    S::law_plus_commutes(t8.negated(), t6.negated());
    let t59 = t6.negated().plus(t8.negated());
    lemma_swap_terms(t11, t9, t59);
    lemma_swap_terms(t11, t6.negated(), t8.negated());
    let t60 = t6.negated().plus(t11.plus(t8.negated()));
    lemma_swap_terms(t22.negated(), t9, t60);
    lemma_swap_terms(t22.negated(), t6.negated(), t11.plus(t8.negated()));
    lemma_swap_terms(t7, t9, t6.negated().plus(t25));
    lemma_swap_terms(t7, t6.negated(), t25);
    let t61 = t6.negated().plus(t7.plus(t25));
    lemma_swap_terms(t10.negated(), t9, t61);
    lemma_swap_terms(t10.negated(), t6.negated(), t7.plus(t25));
    lemma_swap_terms(t32, t9, t6.negated().plus(t26));
    lemma_swap_terms(t32, t6.negated(), t26);
    lemma_swap_terms(t21, t9, t39);
    lemma_swap_terms(t31.negated(), t9, t21.plus(t39));
}

/// A determinant by Laplace expansion with a row repeated is zero.
proof fn lemma_wedge_repeats_first<S: Field>(a: Vector4<S>, b: Vector4<S>, c: Vector4<S>)
    ensures
        wedge(minors(a, b), minors(a, c)) == S::zero_value(),
{
    let t0 = a.x.times(b.y).minus(b.x.times(a.y));
    let t1 = a.z.times(c.w).minus(c.z.times(a.w));
    let t2 = a.x.times(b.z).minus(b.x.times(a.z));
    let t3 = a.y.times(c.w).minus(c.y.times(a.w));
    let t4 = t0.times(t1).minus(t2.times(t3));
    let t5 = a.x.times(b.w).minus(b.x.times(a.w));
    let t6 = a.y.times(c.z).minus(c.y.times(a.z));
    let t7 = a.y.times(b.z).minus(b.y.times(a.z));
    let t8 = a.x.times(c.w).minus(c.x.times(a.w));
    let t9 = t4.plus(t5.times(t6)).plus(t7.times(t8));
    let t10 = a.y.times(b.w).minus(b.y.times(a.w));
    let t11 = a.x.times(c.z).minus(c.x.times(a.z));
    S::law_minus(t9, t10.times(t11));
    S::law_minus(t0.times(t1), t2.times(t3));
    S::law_minus(a.x.times(b.y), b.x.times(a.y));
    S::law_times_commutes(b.x, a.y);
    S::law_minus(a.z.times(c.w), c.z.times(a.w));
    S::law_times_commutes(c.z, a.w);
    S::law_plus_commutes(a.z.times(c.w), a.w.times(c.z).negated());
    let t12 = a.w.times(c.z).negated().plus(a.z.times(c.w));
    lemma_distributes_right(a.x.times(b.y), a.y.times(b.x).negated(), t12);
    S::law_distributes(a.x.times(b.y), a.w.times(c.z).negated(), a.z.times(c.w));
    lemma_times_negated(a.x.times(b.y), a.w.times(c.z));
    S::law_times_associates(a.x, b.y, a.w.times(c.z));
    lemma_swap_factors(b.y, a.w, c.z);
    lemma_swap_factors(a.x, a.w, b.y.times(c.z));
    S::law_times_associates(a.x, b.y, a.z.times(c.w));
    lemma_swap_factors(b.y, a.z, c.w);
    S::law_distributes(a.y.times(b.x).negated(), a.w.times(c.z).negated(), a.z.times(c.w));
    lemma_negated_times(a.y.times(b.x), a.w.times(c.z).negated());
    lemma_times_negated(a.y.times(b.x), a.w.times(c.z));
    let t13 = a.y.times(b.x).times(a.w.times(c.z));
    lemma_negated_twice(t13);
    S::law_times_associates(a.y, b.x, a.w.times(c.z));
    lemma_swap_factors(b.x, a.w, c.z);
    lemma_swap_factors(a.y, a.w, b.x.times(c.z));
    lemma_negated_times(a.y.times(b.x), a.z.times(c.w));
    S::law_times_associates(a.y, b.x, a.z.times(c.w));
    lemma_swap_factors(b.x, a.z, c.w);
    let t14 = a.x.times(b.y.times(c.z));
    let t15 = a.z.times(b.y.times(c.w));
    let t16 = a.y.times(b.x.times(c.z));
    let t17 = a.z.times(b.x.times(c.w));
    let t18 = a.w.times(t16).plus(a.y.times(t17).negated());
    S::law_plus_associates(a.w.times(t14).negated(), a.x.times(t15), t18);
    lemma_swap_terms(a.x.times(t15), a.w.times(t16), a.y.times(t17).negated());
    S::law_minus(a.x.times(b.z), b.x.times(a.z));
    S::law_times_commutes(b.x, a.z);
    S::law_minus(a.y.times(c.w), c.y.times(a.w));
    S::law_times_commutes(c.y, a.w);
    S::law_plus_commutes(a.y.times(c.w), a.w.times(c.y).negated());
    let t19 = a.w.times(c.y).negated().plus(a.y.times(c.w));
    lemma_distributes_right(a.x.times(b.z), a.z.times(b.x).negated(), t19);
    S::law_distributes(a.x.times(b.z), a.w.times(c.y).negated(), a.y.times(c.w));
    lemma_times_negated(a.x.times(b.z), a.w.times(c.y));
    S::law_times_associates(a.x, b.z, a.w.times(c.y));
    lemma_swap_factors(b.z, a.w, c.y);
    lemma_swap_factors(a.x, a.w, b.z.times(c.y));
    S::law_times_associates(a.x, b.z, a.y.times(c.w));
    lemma_swap_factors(b.z, a.y, c.w);
    S::law_distributes(a.z.times(b.x).negated(), a.w.times(c.y).negated(), a.y.times(c.w));
    lemma_negated_times(a.z.times(b.x), a.w.times(c.y).negated());
    lemma_times_negated(a.z.times(b.x), a.w.times(c.y));
    let t20 = a.z.times(b.x).times(a.w.times(c.y));
    lemma_negated_twice(t20);
    S::law_times_associates(a.z, b.x, a.w.times(c.y));
    lemma_swap_factors(b.x, a.w, c.y);
    lemma_swap_factors(a.z, a.w, b.x.times(c.y));
    lemma_negated_times(a.z.times(b.x), a.y.times(c.w));
    S::law_times_associates(a.z, b.x, a.y.times(c.w));
    lemma_swap_factors(b.x, a.y, c.w);
    lemma_swap_factors(a.z, a.y, b.x.times(c.w));
    let t21 = a.x.times(b.z.times(c.y));
    let t22 = a.y.times(b.z.times(c.w));
    let t23 = a.z.times(b.x.times(c.y));
    let t24 = a.w.times(t23).plus(a.y.times(t17).negated());
    S::law_plus_associates(a.w.times(t21).negated(), a.x.times(t22), t24);
    lemma_swap_terms(a.x.times(t22), a.w.times(t23), a.y.times(t17).negated());
    let t25 = a.x.times(t22).plus(a.y.times(t17).negated());
    lemma_negated_sum(a.w.times(t21).negated(), a.w.times(t23).plus(t25));
    lemma_negated_twice(a.w.times(t21));
    lemma_negated_sum(a.w.times(t23), t25);
    lemma_negated_sum(a.x.times(t22), a.y.times(t17).negated());
    lemma_negated_twice(a.y.times(t17));
    let t26 = a.x.times(t15).plus(a.y.times(t17).negated());
    let t27 = a.x.times(t22).negated().plus(a.y.times(t17));
    let t28 = a.w.times(t23).negated().plus(t27);
    S::law_plus_associates(
        a.w.times(t14).negated(),
        a.w.times(t16).plus(t26),
        a.w.times(t21).plus(t28),
    );
    S::law_plus_associates(a.w.times(t16), t26, a.w.times(t21).plus(t28));
    S::law_plus_associates(a.x.times(t15), a.y.times(t17).negated(), a.w.times(t21).plus(t28));
    lemma_swap_terms(a.y.times(t17).negated(), a.w.times(t21), t28);
    lemma_swap_terms(a.y.times(t17).negated(), a.w.times(t23).negated(), t27);
    lemma_swap_terms(a.y.times(t17).negated(), a.x.times(t22).negated(), a.y.times(t17));
    lemma_negated_plus(a.y.times(t17));
    S::law_plus_zero(a.x.times(t22).negated());
    let t29 = a.w.times(t23).negated().plus(a.x.times(t22).negated());
    lemma_swap_terms(a.x.times(t15), a.w.times(t21), t29);
    lemma_swap_terms(a.x.times(t15), a.w.times(t23).negated(), a.x.times(t22).negated());
    S::law_plus_commutes(a.x.times(t15), a.x.times(t22).negated());
    let t30 = a.x.times(t22).negated().plus(a.x.times(t15));
    let t31 = a.w.times(t23).negated().plus(t30);
    lemma_swap_terms(a.w.times(t16), a.w.times(t21), t31);
    S::law_minus(a.x.times(b.w), b.x.times(a.w));
    S::law_times_commutes(b.x, a.w);
    S::law_plus_commutes(a.x.times(b.w), a.w.times(b.x).negated());
    S::law_minus(a.y.times(c.z), c.y.times(a.z));
    S::law_times_commutes(c.y, a.z);
    let t32 = a.y.times(c.z).plus(a.z.times(c.y).negated());
    lemma_distributes_right(a.w.times(b.x).negated(), a.x.times(b.w), t32);
    S::law_distributes(a.w.times(b.x).negated(), a.y.times(c.z), a.z.times(c.y).negated());
    lemma_negated_times(a.w.times(b.x), a.y.times(c.z));
    S::law_times_associates(a.w, b.x, a.y.times(c.z));
    lemma_swap_factors(b.x, a.y, c.z);
    lemma_negated_times(a.w.times(b.x), a.z.times(c.y).negated());
    lemma_times_negated(a.w.times(b.x), a.z.times(c.y));
    let t33 = a.w.times(b.x).times(a.z.times(c.y));
    lemma_negated_twice(t33);
    S::law_times_associates(a.w, b.x, a.z.times(c.y));
    lemma_swap_factors(b.x, a.z, c.y);
    S::law_distributes(a.x.times(b.w), a.y.times(c.z), a.z.times(c.y).negated());
    S::law_times_associates(a.x, b.w, a.y.times(c.z));
    lemma_swap_factors(b.w, a.y, c.z);
    lemma_times_negated(a.x.times(b.w), a.z.times(c.y));
    S::law_times_associates(a.x, b.w, a.z.times(c.y));
    lemma_swap_factors(b.w, a.z, c.y);
    let t34 = a.y.times(b.w.times(c.z));
    let t35 = a.z.times(b.w.times(c.y));
    let t36 = a.x.times(t34).plus(a.x.times(t35).negated());
    S::law_plus_associates(a.w.times(t16).negated(), a.w.times(t23), t36);
    let t37 = a.w.times(t21).plus(a.w.times(t16).plus(t31));
    let t38 = a.w.times(t16).negated().plus(a.w.times(t23).plus(t36));
    S::law_plus_associates(a.w.times(t14).negated(), t37, t38);
    S::law_plus_associates(a.w.times(t21), a.w.times(t16).plus(t31), t38);
    S::law_plus_associates(a.w.times(t16), t31, t38);
    S::law_plus_associates(a.w.times(t23).negated(), t30, t38);
    S::law_plus_associates(a.x.times(t22).negated(), a.x.times(t15), t38);
    lemma_swap_terms(a.x.times(t15), a.w.times(t16).negated(), a.w.times(t23).plus(t36));
    lemma_swap_terms(a.x.times(t15), a.w.times(t23), t36);
    lemma_swap_terms(a.x.times(t15), a.x.times(t34), a.x.times(t35).negated());
    S::law_plus_commutes(a.x.times(t15), a.x.times(t35).negated());
    let t39 = a.x.times(t35).negated().plus(a.x.times(t15));
    let t40 = a.w.times(t23).plus(a.x.times(t34).plus(t39));
    lemma_swap_terms(a.x.times(t22).negated(), a.w.times(t16).negated(), t40);
    lemma_swap_terms(a.x.times(t22).negated(), a.w.times(t23), a.x.times(t34).plus(t39));
    lemma_swap_terms(a.x.times(t22).negated(), a.x.times(t34), t39);
    let t41 = a.x.times(t22).negated().plus(t39);
    let t42 = a.w.times(t23).plus(a.x.times(t34).plus(t41));
    lemma_swap_terms(a.w.times(t23).negated(), a.w.times(t16).negated(), t42);
    lemma_cancels_front(a.w.times(t23), a.x.times(t34).plus(t41));
    lemma_cancels_front(a.w.times(t16), a.x.times(t34).plus(t41));
    S::law_minus(a.y.times(b.z), b.y.times(a.z));
    S::law_times_commutes(b.y, a.z);
    S::law_minus(a.x.times(c.w), c.x.times(a.w));
    S::law_times_commutes(c.x, a.w);
    S::law_plus_commutes(a.x.times(c.w), a.w.times(c.x).negated());
    let t43 = a.w.times(c.x).negated().plus(a.x.times(c.w));
    lemma_distributes_right(a.y.times(b.z), a.z.times(b.y).negated(), t43);
    S::law_distributes(a.y.times(b.z), a.w.times(c.x).negated(), a.x.times(c.w));
    lemma_times_negated(a.y.times(b.z), a.w.times(c.x));
    S::law_times_associates(a.y, b.z, a.w.times(c.x));
    lemma_swap_factors(b.z, a.w, c.x);
    lemma_swap_factors(a.y, a.w, b.z.times(c.x));
    S::law_times_associates(a.y, b.z, a.x.times(c.w));
    lemma_swap_factors(b.z, a.x, c.w);
    lemma_swap_factors(a.y, a.x, b.z.times(c.w));
    S::law_distributes(a.z.times(b.y).negated(), a.w.times(c.x).negated(), a.x.times(c.w));
    lemma_negated_times(a.z.times(b.y), a.w.times(c.x).negated());
    lemma_times_negated(a.z.times(b.y), a.w.times(c.x));
    let t44 = a.z.times(b.y).times(a.w.times(c.x));
    lemma_negated_twice(t44);
    S::law_times_associates(a.z, b.y, a.w.times(c.x));
    lemma_swap_factors(b.y, a.w, c.x);
    lemma_swap_factors(a.z, a.w, b.y.times(c.x));
    lemma_negated_times(a.z.times(b.y), a.x.times(c.w));
    S::law_times_associates(a.z, b.y, a.x.times(c.w));
    lemma_swap_factors(b.y, a.x, c.w);
    lemma_swap_factors(a.z, a.x, b.y.times(c.w));
    let t45 = a.y.times(b.z.times(c.x));
    let t46 = a.z.times(b.y.times(c.x));
    let t47 = a.w.times(t46).plus(a.x.times(t15).negated());
    S::law_plus_associates(a.w.times(t45).negated(), a.x.times(t22), t47);
    lemma_swap_terms(a.x.times(t22), a.w.times(t46), a.x.times(t15).negated());
    let t48 = a.w.times(t21).plus(a.x.times(t34).plus(t41));
    let t49 = a.x.times(t22).plus(a.x.times(t15).negated());
    let t50 = a.w.times(t45).negated().plus(a.w.times(t46).plus(t49));
    S::law_plus_associates(a.w.times(t14).negated(), t48, t50);
    S::law_plus_associates(a.w.times(t21), a.x.times(t34).plus(t41), t50);
    S::law_plus_associates(a.x.times(t34), t41, t50);
    S::law_plus_associates(a.x.times(t22).negated(), t39, t50);
    S::law_plus_associates(a.x.times(t35).negated(), a.x.times(t15), t50);
    lemma_swap_terms(a.x.times(t15), a.w.times(t45).negated(), a.w.times(t46).plus(t49));
    lemma_swap_terms(a.x.times(t15), a.w.times(t46), t49);
    lemma_swap_terms(a.x.times(t15), a.x.times(t22), a.x.times(t15).negated());
    S::law_plus_negated(a.x.times(t15));
    S::law_plus_zero(a.x.times(t22));
    let t51 = a.w.times(t46).plus(a.x.times(t22));
    lemma_swap_terms(a.x.times(t35).negated(), a.w.times(t45).negated(), t51);
    lemma_swap_terms(a.x.times(t35).negated(), a.w.times(t46), a.x.times(t22));
    S::law_plus_commutes(a.x.times(t35).negated(), a.x.times(t22));
    let t52 = a.x.times(t22).plus(a.x.times(t35).negated());
    lemma_swap_terms(
        a.x.times(t22).negated(),
        a.w.times(t45).negated(),
        a.w.times(t46).plus(t52),
    );
    lemma_swap_terms(a.x.times(t22).negated(), a.w.times(t46), t52);
    lemma_cancels_front(a.x.times(t22), a.x.times(t35).negated());
    let t53 = a.w.times(t46).plus(a.x.times(t35).negated());
    lemma_swap_terms(a.x.times(t34), a.w.times(t45).negated(), t53);
    lemma_swap_terms(a.x.times(t34), a.w.times(t46), a.x.times(t35).negated());
    S::law_minus(a.y.times(b.w), b.y.times(a.w));
    S::law_times_commutes(b.y, a.w);
    S::law_plus_commutes(a.y.times(b.w), a.w.times(b.y).negated());
    S::law_minus(a.x.times(c.z), c.x.times(a.z));
    S::law_times_commutes(c.x, a.z);
    let t54 = a.x.times(c.z).plus(a.z.times(c.x).negated());
    lemma_distributes_right(a.w.times(b.y).negated(), a.y.times(b.w), t54);
    S::law_distributes(a.w.times(b.y).negated(), a.x.times(c.z), a.z.times(c.x).negated());
    lemma_negated_times(a.w.times(b.y), a.x.times(c.z));
    S::law_times_associates(a.w, b.y, a.x.times(c.z));
    lemma_swap_factors(b.y, a.x, c.z);
    lemma_negated_times(a.w.times(b.y), a.z.times(c.x).negated());
    lemma_times_negated(a.w.times(b.y), a.z.times(c.x));
    let t55 = a.w.times(b.y).times(a.z.times(c.x));
    lemma_negated_twice(t55);
    S::law_times_associates(a.w, b.y, a.z.times(c.x));
    lemma_swap_factors(b.y, a.z, c.x);
    S::law_distributes(a.y.times(b.w), a.x.times(c.z), a.z.times(c.x).negated());
    S::law_times_associates(a.y, b.w, a.x.times(c.z));
    lemma_swap_factors(b.w, a.x, c.z);
    lemma_swap_factors(a.y, a.x, b.w.times(c.z));
    lemma_times_negated(a.y.times(b.w), a.z.times(c.x));
    S::law_times_associates(a.y, b.w, a.z.times(c.x));
    lemma_swap_factors(b.w, a.z, c.x);
    let t56 = a.z.times(b.w.times(c.x));
    let t57 = a.x.times(t34).plus(a.y.times(t56).negated());
    S::law_plus_associates(a.w.times(t14).negated(), a.w.times(t46), t57);
    lemma_negated_sum(a.w.times(t14).negated(), a.w.times(t46).plus(t57));
    lemma_negated_twice(a.w.times(t14));
    lemma_negated_sum(a.w.times(t46), t57);
    lemma_negated_sum(a.x.times(t34), a.y.times(t56).negated());
    lemma_negated_twice(a.y.times(t56));
    let t58 = a.w.times(t45).negated().plus(a.w.times(t46).plus(t36));
    let t59 = a.x.times(t34).negated().plus(a.y.times(t56));
    let t60 = a.w.times(t46).negated().plus(t59);
    S::law_plus_associates(
        a.w.times(t14).negated(),
        a.w.times(t21).plus(t58),
        a.w.times(t14).plus(t60),
    );
    S::law_plus_associates(a.w.times(t21), t58, a.w.times(t14).plus(t60));
    S::law_plus_associates(
        a.w.times(t45).negated(),
        a.w.times(t46).plus(t36),
        a.w.times(t14).plus(t60),
    );
    S::law_plus_associates(a.w.times(t46), t36, a.w.times(t14).plus(t60));
    S::law_plus_associates(a.x.times(t34), a.x.times(t35).negated(), a.w.times(t14).plus(t60));
    lemma_swap_terms(a.x.times(t35).negated(), a.w.times(t14), t60);
    lemma_swap_terms(a.x.times(t35).negated(), a.w.times(t46).negated(), t59);
    lemma_swap_terms(a.x.times(t35).negated(), a.x.times(t34).negated(), a.y.times(t56));
    let t61 = a.x.times(t35).negated().plus(a.y.times(t56));
    let t62 = a.x.times(t34).negated().plus(t61);
    let t63 = a.w.times(t46).negated().plus(t62);
    lemma_swap_terms(a.x.times(t34), a.w.times(t14), t63);
    lemma_swap_terms(a.x.times(t34), a.w.times(t46).negated(), t62);
    lemma_cancels_front(a.x.times(t34), t61);
    let t64 = a.w.times(t46).negated().plus(t61);
    lemma_swap_terms(a.w.times(t46), a.w.times(t14), t64);
    lemma_cancels_front(a.w.times(t46), t61);
    lemma_swap_terms(a.w.times(t45).negated(), a.w.times(t14), t61);
    let t65 = a.w.times(t45).negated().plus(t61);
    lemma_swap_terms(a.w.times(t21), a.w.times(t14), t65);
    lemma_cancels_front(a.w.times(t14), a.w.times(t21).plus(t65));
    S::law_minus(a.z.times(b.w), b.z.times(a.w));
    S::law_times_commutes(b.z, a.w);
    S::law_plus_commutes(a.z.times(b.w), a.w.times(b.z).negated());
    S::law_minus(a.x.times(c.y), c.x.times(a.y));
    S::law_times_commutes(c.x, a.y);
    let t66 = a.x.times(c.y).plus(a.y.times(c.x).negated());
    lemma_distributes_right(a.w.times(b.z).negated(), a.z.times(b.w), t66);
    S::law_distributes(a.w.times(b.z).negated(), a.x.times(c.y), a.y.times(c.x).negated());
    lemma_negated_times(a.w.times(b.z), a.x.times(c.y));
    S::law_times_associates(a.w, b.z, a.x.times(c.y));
    lemma_swap_factors(b.z, a.x, c.y);
    lemma_negated_times(a.w.times(b.z), a.y.times(c.x).negated());
    lemma_times_negated(a.w.times(b.z), a.y.times(c.x));
    let t67 = a.w.times(b.z).times(a.y.times(c.x));
    lemma_negated_twice(t67);
    S::law_times_associates(a.w, b.z, a.y.times(c.x));
    lemma_swap_factors(b.z, a.y, c.x);
    S::law_distributes(a.z.times(b.w), a.x.times(c.y), a.y.times(c.x).negated());
    S::law_times_associates(a.z, b.w, a.x.times(c.y));
    lemma_swap_factors(b.w, a.x, c.y);
    lemma_swap_factors(a.z, a.x, b.w.times(c.y));
    lemma_times_negated(a.z.times(b.w), a.y.times(c.x));
    S::law_times_associates(a.z, b.w, a.y.times(c.x));
    lemma_swap_factors(b.w, a.y, c.x);
    lemma_swap_factors(a.z, a.y, b.w.times(c.x));
    let t68 = a.x.times(t35).plus(a.y.times(t56).negated());
    S::law_plus_associates(a.w.times(t21).negated(), a.w.times(t45), t68);
    let t69 = a.w.times(t21).negated().plus(a.w.times(t45).plus(t68));
    S::law_plus_associates(a.w.times(t21), t65, t69);
    S::law_plus_associates(a.w.times(t45).negated(), t61, t69);
    S::law_plus_associates(a.x.times(t35).negated(), a.y.times(t56), t69);
    lemma_swap_terms(a.y.times(t56), a.w.times(t21).negated(), a.w.times(t45).plus(t68));
    lemma_swap_terms(a.y.times(t56), a.w.times(t45), t68);
    lemma_swap_terms(a.y.times(t56), a.x.times(t35), a.y.times(t56).negated());
    S::law_plus_negated(a.y.times(t56));
    S::law_plus_zero(a.x.times(t35));
    let t70 = a.w.times(t45).plus(a.x.times(t35));
    lemma_swap_terms(a.x.times(t35).negated(), a.w.times(t21).negated(), t70);
    lemma_swap_terms(a.x.times(t35).negated(), a.w.times(t45), a.x.times(t35));
    lemma_negated_plus(a.x.times(t35));
    S::law_plus_zero(a.w.times(t45));
    lemma_swap_terms(a.w.times(t45).negated(), a.w.times(t21).negated(), a.w.times(t45));
    lemma_negated_plus(a.w.times(t45));
    S::law_plus_zero(a.w.times(t21).negated());
    S::law_plus_negated(a.w.times(t21));
}

/// A determinant by Laplace expansion with a row repeated is zero.
proof fn lemma_wedge_repeats_outer<S: Field>(a: Vector4<S>, b: Vector4<S>, c: Vector4<S>)
    ensures
        wedge(minors(a, b), minors(c, a)) == S::zero_value(),
{
    let t0 = a.x.times(b.y).minus(b.x.times(a.y));
    let t1 = c.z.times(a.w).minus(a.z.times(c.w));
    let t2 = a.x.times(b.z).minus(b.x.times(a.z));
    let t3 = c.y.times(a.w).minus(a.y.times(c.w));
    let t4 = t0.times(t1).minus(t2.times(t3));
    let t5 = a.x.times(b.w).minus(b.x.times(a.w));
    let t6 = c.y.times(a.z).minus(a.y.times(c.z));
    let t7 = a.y.times(b.z).minus(b.y.times(a.z));
    let t8 = c.x.times(a.w).minus(a.x.times(c.w));
    let t9 = t4.plus(t5.times(t6)).plus(t7.times(t8));
    let t10 = a.y.times(b.w).minus(b.y.times(a.w));
    let t11 = c.x.times(a.z).minus(a.x.times(c.z));
    S::law_minus(t9, t10.times(t11));
    S::law_minus(t0.times(t1), t2.times(t3));
    S::law_minus(a.x.times(b.y), b.x.times(a.y));
    S::law_times_commutes(b.x, a.y);
    S::law_minus(c.z.times(a.w), a.z.times(c.w));
    S::law_times_commutes(c.z, a.w);
    let t12 = a.w.times(c.z).plus(a.z.times(c.w).negated());
    lemma_distributes_right(a.x.times(b.y), a.y.times(b.x).negated(), t12);
    S::law_distributes(a.x.times(b.y), a.w.times(c.z), a.z.times(c.w).negated());
    S::law_times_associates(a.x, b.y, a.w.times(c.z));
    lemma_swap_factors(b.y, a.w, c.z);
    lemma_swap_factors(a.x, a.w, b.y.times(c.z));
    lemma_times_negated(a.x.times(b.y), a.z.times(c.w));
    S::law_times_associates(a.x, b.y, a.z.times(c.w));
    lemma_swap_factors(b.y, a.z, c.w);
    S::law_distributes(a.y.times(b.x).negated(), a.w.times(c.z), a.z.times(c.w).negated());
    lemma_negated_times(a.y.times(b.x), a.w.times(c.z));
    S::law_times_associates(a.y, b.x, a.w.times(c.z));
    lemma_swap_factors(b.x, a.w, c.z);
    lemma_swap_factors(a.y, a.w, b.x.times(c.z));
    lemma_negated_times(a.y.times(b.x), a.z.times(c.w).negated());
    lemma_times_negated(a.y.times(b.x), a.z.times(c.w));
    let t13 = a.y.times(b.x).times(a.z.times(c.w));
    lemma_negated_twice(t13);
    S::law_times_associates(a.y, b.x, a.z.times(c.w));
    lemma_swap_factors(b.x, a.z, c.w);
    let t14 = a.x.times(b.y.times(c.z));
    let t15 = a.z.times(b.y.times(c.w));
    let t16 = a.y.times(b.x.times(c.z));
    let t17 = a.z.times(b.x.times(c.w));
    let t18 = a.w.times(t16).negated().plus(a.y.times(t17));
    S::law_plus_associates(a.w.times(t14), a.x.times(t15).negated(), t18);
    lemma_swap_terms(a.x.times(t15).negated(), a.w.times(t16).negated(), a.y.times(t17));
    S::law_minus(a.x.times(b.z), b.x.times(a.z));
    S::law_times_commutes(b.x, a.z);
    S::law_minus(c.y.times(a.w), a.y.times(c.w));
    S::law_times_commutes(c.y, a.w);
    let t19 = a.w.times(c.y).plus(a.y.times(c.w).negated());
    lemma_distributes_right(a.x.times(b.z), a.z.times(b.x).negated(), t19);
    S::law_distributes(a.x.times(b.z), a.w.times(c.y), a.y.times(c.w).negated());
    S::law_times_associates(a.x, b.z, a.w.times(c.y));
    lemma_swap_factors(b.z, a.w, c.y);
    lemma_swap_factors(a.x, a.w, b.z.times(c.y));
    lemma_times_negated(a.x.times(b.z), a.y.times(c.w));
    S::law_times_associates(a.x, b.z, a.y.times(c.w));
    lemma_swap_factors(b.z, a.y, c.w);
    S::law_distributes(a.z.times(b.x).negated(), a.w.times(c.y), a.y.times(c.w).negated());
    lemma_negated_times(a.z.times(b.x), a.w.times(c.y));
    S::law_times_associates(a.z, b.x, a.w.times(c.y));
    lemma_swap_factors(b.x, a.w, c.y);
    lemma_swap_factors(a.z, a.w, b.x.times(c.y));
    lemma_negated_times(a.z.times(b.x), a.y.times(c.w).negated());
    lemma_times_negated(a.z.times(b.x), a.y.times(c.w));
    let t20 = a.z.times(b.x).times(a.y.times(c.w));
    lemma_negated_twice(t20);
    S::law_times_associates(a.z, b.x, a.y.times(c.w));
    lemma_swap_factors(b.x, a.y, c.w);
    lemma_swap_factors(a.z, a.y, b.x.times(c.w));
    let t21 = a.x.times(b.z.times(c.y));
    let t22 = a.y.times(b.z.times(c.w));
    let t23 = a.z.times(b.x.times(c.y));
    let t24 = a.w.times(t23).negated().plus(a.y.times(t17));
    S::law_plus_associates(a.w.times(t21), a.x.times(t22).negated(), t24);
    lemma_swap_terms(a.x.times(t22).negated(), a.w.times(t23).negated(), a.y.times(t17));
    let t25 = a.x.times(t22).negated().plus(a.y.times(t17));
    let t26 = a.w.times(t23).negated().plus(t25);
    lemma_negated_sum(a.w.times(t21), t26);
    lemma_negated_sum(a.w.times(t23).negated(), t25);
    lemma_negated_twice(a.w.times(t23));
    lemma_negated_sum(a.x.times(t22).negated(), a.y.times(t17));
    lemma_negated_twice(a.x.times(t22));
    let t27 = a.x.times(t15).negated().plus(a.y.times(t17));
    let t28 = a.w.times(t16).negated().plus(t27);
    let t29 = a.x.times(t22).plus(a.y.times(t17).negated());
    let t30 = a.w.times(t21).negated().plus(a.w.times(t23).plus(t29));
    S::law_plus_associates(a.w.times(t14), t28, t30);
    S::law_plus_associates(a.w.times(t16).negated(), t27, t30);
    S::law_plus_associates(a.x.times(t15).negated(), a.y.times(t17), t30);
    lemma_swap_terms(a.y.times(t17), a.w.times(t21).negated(), a.w.times(t23).plus(t29));
    lemma_swap_terms(a.y.times(t17), a.w.times(t23), t29);
    lemma_swap_terms(a.y.times(t17), a.x.times(t22), a.y.times(t17).negated());
    S::law_plus_negated(a.y.times(t17));
    S::law_plus_zero(a.x.times(t22));
    let t31 = a.w.times(t23).plus(a.x.times(t22));
    lemma_swap_terms(a.x.times(t15).negated(), a.w.times(t21).negated(), t31);
    lemma_swap_terms(a.x.times(t15).negated(), a.w.times(t23), a.x.times(t22));
    S::law_plus_commutes(a.x.times(t15).negated(), a.x.times(t22));
    let t32 = a.x.times(t22).plus(a.x.times(t15).negated());
    lemma_swap_terms(
        a.w.times(t16).negated(),
        a.w.times(t21).negated(),
        a.w.times(t23).plus(t32),
    );
    S::law_minus(a.x.times(b.w), b.x.times(a.w));
    S::law_times_commutes(b.x, a.w);
    S::law_plus_commutes(a.x.times(b.w), a.w.times(b.x).negated());
    S::law_minus(c.y.times(a.z), a.y.times(c.z));
    S::law_times_commutes(c.y, a.z);
    S::law_plus_commutes(a.z.times(c.y), a.y.times(c.z).negated());
    let t33 = a.y.times(c.z).negated().plus(a.z.times(c.y));
    lemma_distributes_right(a.w.times(b.x).negated(), a.x.times(b.w), t33);
    S::law_distributes(a.w.times(b.x).negated(), a.y.times(c.z).negated(), a.z.times(c.y));
    lemma_negated_times(a.w.times(b.x), a.y.times(c.z).negated());
    lemma_times_negated(a.w.times(b.x), a.y.times(c.z));
    let t34 = a.w.times(b.x).times(a.y.times(c.z));
    lemma_negated_twice(t34);
    S::law_times_associates(a.w, b.x, a.y.times(c.z));
    lemma_swap_factors(b.x, a.y, c.z);
    lemma_negated_times(a.w.times(b.x), a.z.times(c.y));
    S::law_times_associates(a.w, b.x, a.z.times(c.y));
    lemma_swap_factors(b.x, a.z, c.y);
    S::law_distributes(a.x.times(b.w), a.y.times(c.z).negated(), a.z.times(c.y));
    lemma_times_negated(a.x.times(b.w), a.y.times(c.z));
    S::law_times_associates(a.x, b.w, a.y.times(c.z));
    lemma_swap_factors(b.w, a.y, c.z);
    S::law_times_associates(a.x, b.w, a.z.times(c.y));
    lemma_swap_factors(b.w, a.z, c.y);
    let t35 = a.y.times(b.w.times(c.z));
    let t36 = a.z.times(b.w.times(c.y));
    let t37 = a.x.times(t35).negated().plus(a.x.times(t36));
    S::law_plus_associates(a.w.times(t16), a.w.times(t23).negated(), t37);
    let t38 = a.w.times(t16).negated().plus(a.w.times(t23).plus(t32));
    let t39 = a.w.times(t21).negated().plus(t38);
    let t40 = a.w.times(t23).negated().plus(t37);
    S::law_plus_associates(a.w.times(t14), t39, a.w.times(t16).plus(t40));
    S::law_plus_associates(a.w.times(t21).negated(), t38, a.w.times(t16).plus(t40));
    S::law_plus_associates(
        a.w.times(t16).negated(),
        a.w.times(t23).plus(t32),
        a.w.times(t16).plus(t40),
    );
    S::law_plus_associates(a.w.times(t23), t32, a.w.times(t16).plus(t40));
    S::law_plus_associates(a.x.times(t22), a.x.times(t15).negated(), a.w.times(t16).plus(t40));
    lemma_swap_terms(a.x.times(t15).negated(), a.w.times(t16), t40);
    lemma_swap_terms(a.x.times(t15).negated(), a.w.times(t23).negated(), t37);
    lemma_swap_terms(a.x.times(t15).negated(), a.x.times(t35).negated(), a.x.times(t36));
    S::law_plus_commutes(a.x.times(t15).negated(), a.x.times(t36));
    let t41 = a.x.times(t36).plus(a.x.times(t15).negated());
    let t42 = a.x.times(t35).negated().plus(t41);
    let t43 = a.w.times(t23).negated().plus(t42);
    lemma_swap_terms(a.x.times(t22), a.w.times(t16), t43);
    lemma_swap_terms(a.x.times(t22), a.w.times(t23).negated(), t42);
    lemma_swap_terms(a.x.times(t22), a.x.times(t35).negated(), t41);
    let t44 = a.x.times(t35).negated().plus(a.x.times(t22).plus(t41));
    let t45 = a.w.times(t23).negated().plus(t44);
    lemma_swap_terms(a.w.times(t23), a.w.times(t16), t45);
    lemma_cancels_front(a.w.times(t23), t44);
    lemma_cancels_front(a.w.times(t16), t44);
    S::law_minus(a.y.times(b.z), b.y.times(a.z));
    S::law_times_commutes(b.y, a.z);
    S::law_minus(c.x.times(a.w), a.x.times(c.w));
    S::law_times_commutes(c.x, a.w);
    let t46 = a.w.times(c.x).plus(a.x.times(c.w).negated());
    lemma_distributes_right(a.y.times(b.z), a.z.times(b.y).negated(), t46);
    S::law_distributes(a.y.times(b.z), a.w.times(c.x), a.x.times(c.w).negated());
    S::law_times_associates(a.y, b.z, a.w.times(c.x));
    lemma_swap_factors(b.z, a.w, c.x);
    lemma_swap_factors(a.y, a.w, b.z.times(c.x));
    lemma_times_negated(a.y.times(b.z), a.x.times(c.w));
    S::law_times_associates(a.y, b.z, a.x.times(c.w));
    lemma_swap_factors(b.z, a.x, c.w);
    lemma_swap_factors(a.y, a.x, b.z.times(c.w));
    S::law_distributes(a.z.times(b.y).negated(), a.w.times(c.x), a.x.times(c.w).negated());
    lemma_negated_times(a.z.times(b.y), a.w.times(c.x));
    S::law_times_associates(a.z, b.y, a.w.times(c.x));
    lemma_swap_factors(b.y, a.w, c.x);
    lemma_swap_factors(a.z, a.w, b.y.times(c.x));
    lemma_negated_times(a.z.times(b.y), a.x.times(c.w).negated());
    lemma_times_negated(a.z.times(b.y), a.x.times(c.w));
    let t47 = a.z.times(b.y).times(a.x.times(c.w));
    lemma_negated_twice(t47);
    S::law_times_associates(a.z, b.y, a.x.times(c.w));
    lemma_swap_factors(b.y, a.x, c.w);
    lemma_swap_factors(a.z, a.x, b.y.times(c.w));
    let t48 = a.y.times(b.z.times(c.x));
    let t49 = a.z.times(b.y.times(c.x));
    let t50 = a.w.times(t49).negated().plus(a.x.times(t15));
    S::law_plus_associates(a.w.times(t48), a.x.times(t22).negated(), t50);
    lemma_swap_terms(a.x.times(t22).negated(), a.w.times(t49).negated(), a.x.times(t15));
    let t51 = a.w.times(t21).negated().plus(t44);
    let t52 = a.x.times(t22).negated().plus(a.x.times(t15));
    let t53 = a.w.times(t49).negated().plus(t52);
    S::law_plus_associates(a.w.times(t14), t51, a.w.times(t48).plus(t53));
    S::law_plus_associates(a.w.times(t21).negated(), t44, a.w.times(t48).plus(t53));
    S::law_plus_associates(
        a.x.times(t35).negated(),
        a.x.times(t22).plus(t41),
        a.w.times(t48).plus(t53),
    );
    S::law_plus_associates(a.x.times(t22), t41, a.w.times(t48).plus(t53));
    S::law_plus_associates(a.x.times(t36), a.x.times(t15).negated(), a.w.times(t48).plus(t53));
    lemma_swap_terms(a.x.times(t15).negated(), a.w.times(t48), t53);
    lemma_swap_terms(a.x.times(t15).negated(), a.w.times(t49).negated(), t52);
    lemma_swap_terms(a.x.times(t15).negated(), a.x.times(t22).negated(), a.x.times(t15));
    lemma_negated_plus(a.x.times(t15));
    S::law_plus_zero(a.x.times(t22).negated());
    let t54 = a.w.times(t49).negated().plus(a.x.times(t22).negated());
    lemma_swap_terms(a.x.times(t36), a.w.times(t48), t54);
    lemma_swap_terms(a.x.times(t36), a.w.times(t49).negated(), a.x.times(t22).negated());
    S::law_plus_commutes(a.x.times(t36), a.x.times(t22).negated());
    let t55 = a.x.times(t22).negated().plus(a.x.times(t36));
    let t56 = a.w.times(t49).negated().plus(t55);
    lemma_swap_terms(a.x.times(t22), a.w.times(t48), t56);
    lemma_swap_terms(a.x.times(t22), a.w.times(t49).negated(), t55);
    lemma_cancels_front(a.x.times(t22), a.x.times(t36));
    let t57 = a.w.times(t49).negated().plus(a.x.times(t36));
    lemma_swap_terms(a.x.times(t35).negated(), a.w.times(t48), t57);
    lemma_swap_terms(a.x.times(t35).negated(), a.w.times(t49).negated(), a.x.times(t36));
    S::law_minus(a.y.times(b.w), b.y.times(a.w));
    S::law_times_commutes(b.y, a.w);
    S::law_plus_commutes(a.y.times(b.w), a.w.times(b.y).negated());
    S::law_minus(c.x.times(a.z), a.x.times(c.z));
    S::law_times_commutes(c.x, a.z);
    S::law_plus_commutes(a.z.times(c.x), a.x.times(c.z).negated());
    let t58 = a.x.times(c.z).negated().plus(a.z.times(c.x));
    lemma_distributes_right(a.w.times(b.y).negated(), a.y.times(b.w), t58);
    S::law_distributes(a.w.times(b.y).negated(), a.x.times(c.z).negated(), a.z.times(c.x));
    lemma_negated_times(a.w.times(b.y), a.x.times(c.z).negated());
    lemma_times_negated(a.w.times(b.y), a.x.times(c.z));
    let t59 = a.w.times(b.y).times(a.x.times(c.z));
    lemma_negated_twice(t59);
    S::law_times_associates(a.w, b.y, a.x.times(c.z));
    lemma_swap_factors(b.y, a.x, c.z);
    lemma_negated_times(a.w.times(b.y), a.z.times(c.x));
    S::law_times_associates(a.w, b.y, a.z.times(c.x));
    lemma_swap_factors(b.y, a.z, c.x);
    S::law_distributes(a.y.times(b.w), a.x.times(c.z).negated(), a.z.times(c.x));
    lemma_times_negated(a.y.times(b.w), a.x.times(c.z));
    S::law_times_associates(a.y, b.w, a.x.times(c.z));
    lemma_swap_factors(b.w, a.x, c.z);
    lemma_swap_factors(a.y, a.x, b.w.times(c.z));
    S::law_times_associates(a.y, b.w, a.z.times(c.x));
    lemma_swap_factors(b.w, a.z, c.x);
    let t60 = a.z.times(b.w.times(c.x));
    let t61 = a.x.times(t35).negated().plus(a.y.times(t60));
    S::law_plus_associates(a.w.times(t14), a.w.times(t49).negated(), t61);
    let t62 = a.w.times(t49).negated().plus(t61);
    lemma_negated_sum(a.w.times(t14), t62);
    lemma_negated_sum(a.w.times(t49).negated(), t61);
    lemma_negated_twice(a.w.times(t49));
    lemma_negated_sum(a.x.times(t35).negated(), a.y.times(t60));
    lemma_negated_twice(a.x.times(t35));
    let t63 = a.w.times(t49).negated().plus(t37);
    let t64 = a.w.times(t21).negated().plus(a.w.times(t48).plus(t63));
    let t65 = a.x.times(t35).plus(a.y.times(t60).negated());
    let t66 = a.w.times(t14).negated().plus(a.w.times(t49).plus(t65));
    S::law_plus_associates(a.w.times(t14), t64, t66);
    S::law_plus_associates(a.w.times(t21).negated(), a.w.times(t48).plus(t63), t66);
    S::law_plus_associates(a.w.times(t48), t63, t66);
    S::law_plus_associates(a.w.times(t49).negated(), t37, t66);
    S::law_plus_associates(a.x.times(t35).negated(), a.x.times(t36), t66);
    lemma_swap_terms(a.x.times(t36), a.w.times(t14).negated(), a.w.times(t49).plus(t65));
    lemma_swap_terms(a.x.times(t36), a.w.times(t49), t65);
    lemma_swap_terms(a.x.times(t36), a.x.times(t35), a.y.times(t60).negated());
    let t67 = a.x.times(t36).plus(a.y.times(t60).negated());
    let t68 = a.w.times(t49).plus(a.x.times(t35).plus(t67));
    lemma_swap_terms(a.x.times(t35).negated(), a.w.times(t14).negated(), t68);
    lemma_swap_terms(a.x.times(t35).negated(), a.w.times(t49), a.x.times(t35).plus(t67));
    lemma_cancels_front(a.x.times(t35), t67);
    lemma_swap_terms(
        a.w.times(t49).negated(),
        a.w.times(t14).negated(),
        a.w.times(t49).plus(t67),
    );
    lemma_cancels_front(a.w.times(t49), t67);
    lemma_swap_terms(a.w.times(t48), a.w.times(t14).negated(), t67);
    lemma_swap_terms(
        a.w.times(t21).negated(),
        a.w.times(t14).negated(),
        a.w.times(t48).plus(t67),
    );
    let t69 = a.w.times(t21).negated().plus(a.w.times(t48).plus(t67));
    lemma_cancels_front(a.w.times(t14), t69);
    S::law_minus(a.z.times(b.w), b.z.times(a.w));
    S::law_times_commutes(b.z, a.w);
    S::law_plus_commutes(a.z.times(b.w), a.w.times(b.z).negated());
    S::law_minus(c.x.times(a.y), a.x.times(c.y));
    S::law_times_commutes(c.x, a.y);
    S::law_plus_commutes(a.y.times(c.x), a.x.times(c.y).negated());
    let t70 = a.x.times(c.y).negated().plus(a.y.times(c.x));
    lemma_distributes_right(a.w.times(b.z).negated(), a.z.times(b.w), t70);
    S::law_distributes(a.w.times(b.z).negated(), a.x.times(c.y).negated(), a.y.times(c.x));
    lemma_negated_times(a.w.times(b.z), a.x.times(c.y).negated());
    lemma_times_negated(a.w.times(b.z), a.x.times(c.y));
    let t71 = a.w.times(b.z).times(a.x.times(c.y));
    lemma_negated_twice(t71);
    S::law_times_associates(a.w, b.z, a.x.times(c.y));
    lemma_swap_factors(b.z, a.x, c.y);
    lemma_negated_times(a.w.times(b.z), a.y.times(c.x));
    S::law_times_associates(a.w, b.z, a.y.times(c.x));
    lemma_swap_factors(b.z, a.y, c.x);
    S::law_distributes(a.z.times(b.w), a.x.times(c.y).negated(), a.y.times(c.x));
    lemma_times_negated(a.z.times(b.w), a.x.times(c.y));
    S::law_times_associates(a.z, b.w, a.x.times(c.y));
    lemma_swap_factors(b.w, a.x, c.y);
    lemma_swap_factors(a.z, a.x, b.w.times(c.y));
    S::law_times_associates(a.z, b.w, a.y.times(c.x));
    lemma_swap_factors(b.w, a.y, c.x);
    lemma_swap_factors(a.z, a.y, b.w.times(c.x));
    let t72 = a.x.times(t36).negated().plus(a.y.times(t60));
    S::law_plus_associates(a.w.times(t21), a.w.times(t48).negated(), t72);
    let t73 = a.w.times(t48).negated().plus(t72);
    S::law_plus_associates(
        a.w.times(t21).negated(),
        a.w.times(t48).plus(t67),
        a.w.times(t21).plus(t73),
    );
    S::law_plus_associates(a.w.times(t48), t67, a.w.times(t21).plus(t73));
    S::law_plus_associates(a.x.times(t36), a.y.times(t60).negated(), a.w.times(t21).plus(t73));
    lemma_swap_terms(a.y.times(t60).negated(), a.w.times(t21), t73);
    lemma_swap_terms(a.y.times(t60).negated(), a.w.times(t48).negated(), t72);
    lemma_swap_terms(a.y.times(t60).negated(), a.x.times(t36).negated(), a.y.times(t60));
    lemma_negated_plus(a.y.times(t60));
    S::law_plus_zero(a.x.times(t36).negated());
    let t74 = a.w.times(t48).negated().plus(a.x.times(t36).negated());
    lemma_swap_terms(a.x.times(t36), a.w.times(t21), t74);
    lemma_swap_terms(a.x.times(t36), a.w.times(t48).negated(), a.x.times(t36).negated());
    S::law_plus_negated(a.x.times(t36));
    S::law_plus_zero(a.w.times(t48).negated());
    lemma_swap_terms(a.w.times(t48), a.w.times(t21), a.w.times(t48).negated());
    S::law_plus_negated(a.w.times(t48));
    S::law_plus_zero(a.w.times(t21));
    lemma_negated_plus(a.w.times(t21));
}

/// A determinant by Laplace expansion with a row repeated is zero.
proof fn lemma_wedge_repeats_inner<S: Field>(a: Vector4<S>, b: Vector4<S>, c: Vector4<S>)
    ensures
        wedge(minors(a, b), minors(b, c)) == S::zero_value(),
{
    let t0 = a.x.times(b.y).minus(b.x.times(a.y));
    let t1 = b.z.times(c.w).minus(c.z.times(b.w));
    let t2 = a.x.times(b.z).minus(b.x.times(a.z));
    let t3 = b.y.times(c.w).minus(c.y.times(b.w));
    let t4 = t0.times(t1).minus(t2.times(t3));
    let t5 = a.x.times(b.w).minus(b.x.times(a.w));
    let t6 = b.y.times(c.z).minus(c.y.times(b.z));
    let t7 = a.y.times(b.z).minus(b.y.times(a.z));
    let t8 = b.x.times(c.w).minus(c.x.times(b.w));
    let t9 = t4.plus(t5.times(t6)).plus(t7.times(t8));
    let t10 = a.y.times(b.w).minus(b.y.times(a.w));
    let t11 = b.x.times(c.z).minus(c.x.times(b.z));
    S::law_minus(t9, t10.times(t11));
    S::law_minus(t0.times(t1), t2.times(t3));
    S::law_minus(a.x.times(b.y), b.x.times(a.y));
    S::law_times_commutes(b.x, a.y);
    S::law_minus(b.z.times(c.w), c.z.times(b.w));
    S::law_times_commutes(c.z, b.w);
    S::law_plus_commutes(b.z.times(c.w), b.w.times(c.z).negated());
    let t12 = b.w.times(c.z).negated().plus(b.z.times(c.w));
    lemma_distributes_right(a.x.times(b.y), a.y.times(b.x).negated(), t12);
    S::law_distributes(a.x.times(b.y), b.w.times(c.z).negated(), b.z.times(c.w));
    lemma_times_negated(a.x.times(b.y), b.w.times(c.z));
    S::law_times_associates(a.x, b.y, b.w.times(c.z));
    lemma_swap_factors(b.y, b.w, c.z);
    S::law_times_associates(a.x, b.y, b.z.times(c.w));
    S::law_distributes(a.y.times(b.x).negated(), b.w.times(c.z).negated(), b.z.times(c.w));
    lemma_negated_times(a.y.times(b.x), b.w.times(c.z).negated());
    lemma_times_negated(a.y.times(b.x), b.w.times(c.z));
    let t13 = a.y.times(b.x).times(b.w.times(c.z));
    lemma_negated_twice(t13);
    S::law_times_associates(a.y, b.x, b.w.times(c.z));
    lemma_swap_factors(b.x, b.w, c.z);
    lemma_negated_times(a.y.times(b.x), b.z.times(c.w));
    S::law_times_associates(a.y, b.x, b.z.times(c.w));
    let t14 = b.w.times(b.y.times(c.z));
    let t15 = b.y.times(b.z.times(c.w));
    let t16 = b.w.times(b.x.times(c.z));
    let t17 = b.x.times(b.z.times(c.w));
    let t18 = a.y.times(t16).plus(a.y.times(t17).negated());
    S::law_plus_associates(a.x.times(t14).negated(), a.x.times(t15), t18);
    S::law_minus(a.x.times(b.z), b.x.times(a.z));
    S::law_times_commutes(b.x, a.z);
    S::law_minus(b.y.times(c.w), c.y.times(b.w));
    S::law_times_commutes(c.y, b.w);
    S::law_plus_commutes(b.y.times(c.w), b.w.times(c.y).negated());
    let t19 = b.w.times(c.y).negated().plus(b.y.times(c.w));
    lemma_distributes_right(a.x.times(b.z), a.z.times(b.x).negated(), t19);
    S::law_distributes(a.x.times(b.z), b.w.times(c.y).negated(), b.y.times(c.w));
    lemma_times_negated(a.x.times(b.z), b.w.times(c.y));
    S::law_times_associates(a.x, b.z, b.w.times(c.y));
    lemma_swap_factors(b.z, b.w, c.y);
    S::law_times_associates(a.x, b.z, b.y.times(c.w));
    lemma_swap_factors(b.z, b.y, c.w);
    S::law_distributes(a.z.times(b.x).negated(), b.w.times(c.y).negated(), b.y.times(c.w));
    lemma_negated_times(a.z.times(b.x), b.w.times(c.y).negated());
    lemma_times_negated(a.z.times(b.x), b.w.times(c.y));
    let t20 = a.z.times(b.x).times(b.w.times(c.y));
    lemma_negated_twice(t20);
    S::law_times_associates(a.z, b.x, b.w.times(c.y));
    lemma_swap_factors(b.x, b.w, c.y);
    lemma_negated_times(a.z.times(b.x), b.y.times(c.w));
    S::law_times_associates(a.z, b.x, b.y.times(c.w));
    let t21 = b.w.times(b.z.times(c.y));
    let t22 = b.w.times(b.x.times(c.y));
    let t23 = b.x.times(b.y.times(c.w));
    let t24 = a.z.times(t22).plus(a.z.times(t23).negated());
    S::law_plus_associates(a.x.times(t21).negated(), a.x.times(t15), t24);
    lemma_negated_sum(a.x.times(t21).negated(), a.x.times(t15).plus(t24));
    lemma_negated_twice(a.x.times(t21));
    lemma_negated_sum(a.x.times(t15), t24);
    lemma_negated_sum(a.z.times(t22), a.z.times(t23).negated());
    lemma_negated_twice(a.z.times(t23));
    let t25 = a.z.times(t22).negated().plus(a.z.times(t23));
    let t26 = a.x.times(t15).negated().plus(t25);
    S::law_plus_associates(
        a.x.times(t14).negated(),
        a.x.times(t15).plus(t18),
        a.x.times(t21).plus(t26),
    );
    S::law_plus_associates(a.x.times(t15), t18, a.x.times(t21).plus(t26));
    S::law_plus_associates(a.y.times(t16), a.y.times(t17).negated(), a.x.times(t21).plus(t26));
    lemma_swap_terms(a.y.times(t17).negated(), a.x.times(t21), t26);
    lemma_swap_terms(a.y.times(t17).negated(), a.x.times(t15).negated(), t25);
    let t27 = a.y.times(t17).negated().plus(t25);
    let t28 = a.x.times(t15).negated().plus(t27);
    lemma_swap_terms(a.y.times(t16), a.x.times(t21), t28);
    lemma_swap_terms(a.y.times(t16), a.x.times(t15).negated(), t27);
    let t29 = a.x.times(t15).negated().plus(a.y.times(t16).plus(t27));
    lemma_swap_terms(a.x.times(t15), a.x.times(t21), t29);
    lemma_cancels_front(a.x.times(t15), a.y.times(t16).plus(t27));
    S::law_minus(a.x.times(b.w), b.x.times(a.w));
    S::law_times_commutes(b.x, a.w);
    S::law_plus_commutes(a.x.times(b.w), a.w.times(b.x).negated());
    S::law_minus(b.y.times(c.z), c.y.times(b.z));
    S::law_times_commutes(c.y, b.z);
    let t30 = b.y.times(c.z).plus(b.z.times(c.y).negated());
    lemma_distributes_right(a.w.times(b.x).negated(), a.x.times(b.w), t30);
    S::law_distributes(a.w.times(b.x).negated(), b.y.times(c.z), b.z.times(c.y).negated());
    lemma_negated_times(a.w.times(b.x), b.y.times(c.z));
    S::law_times_associates(a.w, b.x, b.y.times(c.z));
    lemma_negated_times(a.w.times(b.x), b.z.times(c.y).negated());
    lemma_times_negated(a.w.times(b.x), b.z.times(c.y));
    let t31 = a.w.times(b.x).times(b.z.times(c.y));
    lemma_negated_twice(t31);
    S::law_times_associates(a.w, b.x, b.z.times(c.y));
    S::law_distributes(a.x.times(b.w), b.y.times(c.z), b.z.times(c.y).negated());
    S::law_times_associates(a.x, b.w, b.y.times(c.z));
    lemma_times_negated(a.x.times(b.w), b.z.times(c.y));
    S::law_times_associates(a.x, b.w, b.z.times(c.y));
    let t32 = b.x.times(b.y.times(c.z));
    let t33 = b.x.times(b.z.times(c.y));
    let t34 = a.x.times(t14).plus(a.x.times(t21).negated());
    S::law_plus_associates(a.w.times(t32).negated(), a.w.times(t33), t34);
    let t35 = a.x.times(t21).plus(a.y.times(t16).plus(t27));
    let t36 = a.w.times(t32).negated().plus(a.w.times(t33).plus(t34));
    S::law_plus_associates(a.x.times(t14).negated(), t35, t36);
    S::law_plus_associates(a.x.times(t21), a.y.times(t16).plus(t27), t36);
    S::law_plus_associates(a.y.times(t16), t27, t36);
    S::law_plus_associates(a.y.times(t17).negated(), t25, t36);
    S::law_plus_associates(a.z.times(t22).negated(), a.z.times(t23), t36);
    lemma_swap_terms(a.z.times(t23), a.w.times(t32).negated(), a.w.times(t33).plus(t34));
    lemma_swap_terms(a.z.times(t23), a.w.times(t33), t34);
    lemma_swap_terms(a.z.times(t23), a.x.times(t14), a.x.times(t21).negated());
    S::law_plus_commutes(a.z.times(t23), a.x.times(t21).negated());
    let t37 = a.x.times(t21).negated().plus(a.z.times(t23));
    let t38 = a.w.times(t33).plus(a.x.times(t14).plus(t37));
    lemma_swap_terms(a.z.times(t22).negated(), a.w.times(t32).negated(), t38);
    lemma_swap_terms(a.z.times(t22).negated(), a.w.times(t33), a.x.times(t14).plus(t37));
    lemma_swap_terms(a.z.times(t22).negated(), a.x.times(t14), t37);
    lemma_swap_terms(a.z.times(t22).negated(), a.x.times(t21).negated(), a.z.times(t23));
    let t39 = a.x.times(t21).negated().plus(t25);
    let t40 = a.w.times(t33).plus(a.x.times(t14).plus(t39));
    lemma_swap_terms(a.y.times(t17).negated(), a.w.times(t32).negated(), t40);
    lemma_swap_terms(a.y.times(t17).negated(), a.w.times(t33), a.x.times(t14).plus(t39));
    lemma_swap_terms(a.y.times(t17).negated(), a.x.times(t14), t39);
    lemma_swap_terms(a.y.times(t17).negated(), a.x.times(t21).negated(), t25);
    let t41 = a.x.times(t21).negated().plus(t27);
    let t42 = a.w.times(t33).plus(a.x.times(t14).plus(t41));
    lemma_swap_terms(a.y.times(t16), a.w.times(t32).negated(), t42);
    lemma_swap_terms(a.y.times(t16), a.w.times(t33), a.x.times(t14).plus(t41));
    lemma_swap_terms(a.y.times(t16), a.x.times(t14), t41);
    lemma_swap_terms(a.y.times(t16), a.x.times(t21).negated(), t27);
    let t43 = a.x.times(t21).negated().plus(a.y.times(t16).plus(t27));
    let t44 = a.w.times(t33).plus(a.x.times(t14).plus(t43));
    lemma_swap_terms(a.x.times(t21), a.w.times(t32).negated(), t44);
    lemma_swap_terms(a.x.times(t21), a.w.times(t33), a.x.times(t14).plus(t43));
    lemma_swap_terms(a.x.times(t21), a.x.times(t14), t43);
    lemma_cancels_front(a.x.times(t21), a.y.times(t16).plus(t27));
    let t45 = a.x.times(t14).plus(a.y.times(t16).plus(t27));
    lemma_swap_terms(
        a.x.times(t14).negated(),
        a.w.times(t32).negated(),
        a.w.times(t33).plus(t45),
    );
    lemma_swap_terms(a.x.times(t14).negated(), a.w.times(t33), t45);
    lemma_cancels_front(a.x.times(t14), a.y.times(t16).plus(t27));
    S::law_minus(a.y.times(b.z), b.y.times(a.z));
    S::law_times_commutes(b.y, a.z);
    S::law_minus(b.x.times(c.w), c.x.times(b.w));
    S::law_times_commutes(c.x, b.w);
    S::law_plus_commutes(b.x.times(c.w), b.w.times(c.x).negated());
    let t46 = b.w.times(c.x).negated().plus(b.x.times(c.w));
    lemma_distributes_right(a.y.times(b.z), a.z.times(b.y).negated(), t46);
    S::law_distributes(a.y.times(b.z), b.w.times(c.x).negated(), b.x.times(c.w));
    lemma_times_negated(a.y.times(b.z), b.w.times(c.x));
    S::law_times_associates(a.y, b.z, b.w.times(c.x));
    lemma_swap_factors(b.z, b.w, c.x);
    S::law_times_associates(a.y, b.z, b.x.times(c.w));
    lemma_swap_factors(b.z, b.x, c.w);
    S::law_distributes(a.z.times(b.y).negated(), b.w.times(c.x).negated(), b.x.times(c.w));
    lemma_negated_times(a.z.times(b.y), b.w.times(c.x).negated());
    lemma_times_negated(a.z.times(b.y), b.w.times(c.x));
    let t47 = a.z.times(b.y).times(b.w.times(c.x));
    lemma_negated_twice(t47);
    S::law_times_associates(a.z, b.y, b.w.times(c.x));
    lemma_swap_factors(b.y, b.w, c.x);
    lemma_negated_times(a.z.times(b.y), b.x.times(c.w));
    S::law_times_associates(a.z, b.y, b.x.times(c.w));
    lemma_swap_factors(b.y, b.x, c.w);
    let t48 = b.w.times(b.z.times(c.x));
    let t49 = b.w.times(b.y.times(c.x));
    let t50 = a.z.times(t49).plus(a.z.times(t23).negated());
    S::law_plus_associates(a.y.times(t48).negated(), a.y.times(t17), t50);
    let t51 = a.w.times(t33).plus(a.y.times(t16).plus(t27));
    let t52 = a.y.times(t48).negated().plus(a.y.times(t17).plus(t50));
    S::law_plus_associates(a.w.times(t32).negated(), t51, t52);
    S::law_plus_associates(a.w.times(t33), a.y.times(t16).plus(t27), t52);
    S::law_plus_associates(a.y.times(t16), t27, t52);
    S::law_plus_associates(a.y.times(t17).negated(), t25, t52);
    S::law_plus_associates(a.z.times(t22).negated(), a.z.times(t23), t52);
    lemma_swap_terms(a.z.times(t23), a.y.times(t48).negated(), a.y.times(t17).plus(t50));
    lemma_swap_terms(a.z.times(t23), a.y.times(t17), t50);
    lemma_swap_terms(a.z.times(t23), a.z.times(t49), a.z.times(t23).negated());
    S::law_plus_negated(a.z.times(t23));
    S::law_plus_zero(a.z.times(t49));
    let t53 = a.y.times(t17).plus(a.z.times(t49));
    lemma_swap_terms(a.z.times(t22).negated(), a.y.times(t48).negated(), t53);
    lemma_swap_terms(a.z.times(t22).negated(), a.y.times(t17), a.z.times(t49));
    let t54 = a.z.times(t22).negated().plus(a.z.times(t49));
    lemma_swap_terms(
        a.y.times(t17).negated(),
        a.y.times(t48).negated(),
        a.y.times(t17).plus(t54),
    );
    lemma_cancels_front(a.y.times(t17), t54);
    S::law_minus(a.y.times(b.w), b.y.times(a.w));
    S::law_times_commutes(b.y, a.w);
    S::law_plus_commutes(a.y.times(b.w), a.w.times(b.y).negated());
    S::law_minus(b.x.times(c.z), c.x.times(b.z));
    S::law_times_commutes(c.x, b.z);
    let t55 = b.x.times(c.z).plus(b.z.times(c.x).negated());
    lemma_distributes_right(a.w.times(b.y).negated(), a.y.times(b.w), t55);
    S::law_distributes(a.w.times(b.y).negated(), b.x.times(c.z), b.z.times(c.x).negated());
    lemma_negated_times(a.w.times(b.y), b.x.times(c.z));
    S::law_times_associates(a.w, b.y, b.x.times(c.z));
    lemma_swap_factors(b.y, b.x, c.z);
    lemma_negated_times(a.w.times(b.y), b.z.times(c.x).negated());
    lemma_times_negated(a.w.times(b.y), b.z.times(c.x));
    let t56 = a.w.times(b.y).times(b.z.times(c.x));
    lemma_negated_twice(t56);
    S::law_times_associates(a.w, b.y, b.z.times(c.x));
    S::law_distributes(a.y.times(b.w), b.x.times(c.z), b.z.times(c.x).negated());
    S::law_times_associates(a.y, b.w, b.x.times(c.z));
    lemma_times_negated(a.y.times(b.w), b.z.times(c.x));
    S::law_times_associates(a.y, b.w, b.z.times(c.x));
    let t57 = b.y.times(b.z.times(c.x));
    let t58 = a.y.times(t16).plus(a.y.times(t48).negated());
    S::law_plus_associates(a.w.times(t32).negated(), a.w.times(t57), t58);
    lemma_negated_sum(a.w.times(t32).negated(), a.w.times(t57).plus(t58));
    lemma_negated_twice(a.w.times(t32));
    lemma_negated_sum(a.w.times(t57), t58);
    lemma_negated_sum(a.y.times(t16), a.y.times(t48).negated());
    lemma_negated_twice(a.y.times(t48));
    let t59 = a.y.times(t48).negated().plus(t54);
    let t60 = a.w.times(t33).plus(a.y.times(t16).plus(t59));
    let t61 = a.y.times(t16).negated().plus(a.y.times(t48));
    let t62 = a.w.times(t57).negated().plus(t61);
    S::law_plus_associates(a.w.times(t32).negated(), t60, a.w.times(t32).plus(t62));
    S::law_plus_associates(a.w.times(t33), a.y.times(t16).plus(t59), a.w.times(t32).plus(t62));
    S::law_plus_associates(a.y.times(t16), t59, a.w.times(t32).plus(t62));
    S::law_plus_associates(a.y.times(t48).negated(), t54, a.w.times(t32).plus(t62));
    S::law_plus_associates(a.z.times(t22).negated(), a.z.times(t49), a.w.times(t32).plus(t62));
    lemma_swap_terms(a.z.times(t49), a.w.times(t32), t62);
    lemma_swap_terms(a.z.times(t49), a.w.times(t57).negated(), t61);
    lemma_swap_terms(a.z.times(t49), a.y.times(t16).negated(), a.y.times(t48));
    S::law_plus_commutes(a.z.times(t49), a.y.times(t48));
    let t63 = a.y.times(t48).plus(a.z.times(t49));
    let t64 = a.y.times(t16).negated().plus(t63);
    let t65 = a.w.times(t57).negated().plus(t64);
    lemma_swap_terms(a.z.times(t22).negated(), a.w.times(t32), t65);
    lemma_swap_terms(a.z.times(t22).negated(), a.w.times(t57).negated(), t64);
    lemma_swap_terms(a.z.times(t22).negated(), a.y.times(t16).negated(), t63);
    lemma_swap_terms(a.z.times(t22).negated(), a.y.times(t48), a.z.times(t49));
    let t66 = a.y.times(t16).negated().plus(a.y.times(t48).plus(t54));
    let t67 = a.w.times(t57).negated().plus(t66);
    lemma_swap_terms(a.y.times(t48).negated(), a.w.times(t32), t67);
    lemma_swap_terms(a.y.times(t48).negated(), a.w.times(t57).negated(), t66);
    lemma_swap_terms(
        a.y.times(t48).negated(),
        a.y.times(t16).negated(),
        a.y.times(t48).plus(t54),
    );
    lemma_cancels_front(a.y.times(t48), t54);
    let t68 = a.y.times(t16).negated().plus(t54);
    let t69 = a.w.times(t57).negated().plus(t68);
    lemma_swap_terms(a.y.times(t16), a.w.times(t32), t69);
    lemma_swap_terms(a.y.times(t16), a.w.times(t57).negated(), t68);
    lemma_cancels_front(a.y.times(t16), t54);
    let t70 = a.w.times(t57).negated().plus(t54);
    lemma_swap_terms(a.w.times(t33), a.w.times(t32), t70);
    lemma_cancels_front(a.w.times(t32), a.w.times(t33).plus(t70));
    S::law_minus(a.z.times(b.w), b.z.times(a.w));
    S::law_times_commutes(b.z, a.w);
    S::law_plus_commutes(a.z.times(b.w), a.w.times(b.z).negated());
    S::law_minus(b.x.times(c.y), c.x.times(b.y));
    S::law_times_commutes(c.x, b.y);
    let t71 = b.x.times(c.y).plus(b.y.times(c.x).negated());
    lemma_distributes_right(a.w.times(b.z).negated(), a.z.times(b.w), t71);
    S::law_distributes(a.w.times(b.z).negated(), b.x.times(c.y), b.y.times(c.x).negated());
    lemma_negated_times(a.w.times(b.z), b.x.times(c.y));
    S::law_times_associates(a.w, b.z, b.x.times(c.y));
    lemma_swap_factors(b.z, b.x, c.y);
    lemma_negated_times(a.w.times(b.z), b.y.times(c.x).negated());
    lemma_times_negated(a.w.times(b.z), b.y.times(c.x));
    let t72 = a.w.times(b.z).times(b.y.times(c.x));
    lemma_negated_twice(t72);
    S::law_times_associates(a.w, b.z, b.y.times(c.x));
    lemma_swap_factors(b.z, b.y, c.x);
    S::law_distributes(a.z.times(b.w), b.x.times(c.y), b.y.times(c.x).negated());
    S::law_times_associates(a.z, b.w, b.x.times(c.y));
    lemma_times_negated(a.z.times(b.w), b.y.times(c.x));
    S::law_times_associates(a.z, b.w, b.y.times(c.x));
    let t73 = a.z.times(t22).plus(a.z.times(t49).negated());
    S::law_plus_associates(a.w.times(t33).negated(), a.w.times(t57), t73);
    let t74 = a.w.times(t33).negated().plus(a.w.times(t57).plus(t73));
    S::law_plus_associates(a.w.times(t33), t70, t74);
    S::law_plus_associates(a.w.times(t57).negated(), t54, t74);
    S::law_plus_associates(a.z.times(t22).negated(), a.z.times(t49), t74);
    lemma_swap_terms(a.z.times(t49), a.w.times(t33).negated(), a.w.times(t57).plus(t73));
    lemma_swap_terms(a.z.times(t49), a.w.times(t57), t73);
    lemma_swap_terms(a.z.times(t49), a.z.times(t22), a.z.times(t49).negated());
    S::law_plus_negated(a.z.times(t49));
    S::law_plus_zero(a.z.times(t22));
    let t75 = a.w.times(t57).plus(a.z.times(t22));
    lemma_swap_terms(a.z.times(t22).negated(), a.w.times(t33).negated(), t75);
    lemma_swap_terms(a.z.times(t22).negated(), a.w.times(t57), a.z.times(t22));
    lemma_negated_plus(a.z.times(t22));
    S::law_plus_zero(a.w.times(t57));
    lemma_swap_terms(a.w.times(t57).negated(), a.w.times(t33).negated(), a.w.times(t57));
    lemma_negated_plus(a.w.times(t57));
    S::law_plus_zero(a.w.times(t33).negated());
    S::law_plus_negated(a.w.times(t33));
}

/// A determinant by Laplace expansion with a row repeated is zero.
proof fn lemma_wedge_repeats_last<S: Field>(a: Vector4<S>, b: Vector4<S>, c: Vector4<S>)
    ensures
        wedge(minors(a, b), minors(c, b)) == S::zero_value(),
{
    let t0 = a.x.times(b.y).minus(b.x.times(a.y));
    let t1 = c.z.times(b.w).minus(b.z.times(c.w));
    let t2 = a.x.times(b.z).minus(b.x.times(a.z));
    let t3 = c.y.times(b.w).minus(b.y.times(c.w));
    let t4 = t0.times(t1).minus(t2.times(t3));
    let t5 = a.x.times(b.w).minus(b.x.times(a.w));
    let t6 = c.y.times(b.z).minus(b.y.times(c.z));
    let t7 = a.y.times(b.z).minus(b.y.times(a.z));
    let t8 = c.x.times(b.w).minus(b.x.times(c.w));
    let t9 = t4.plus(t5.times(t6)).plus(t7.times(t8));
    let t10 = a.y.times(b.w).minus(b.y.times(a.w));
    let t11 = c.x.times(b.z).minus(b.x.times(c.z));
    S::law_minus(t9, t10.times(t11));
    S::law_minus(t0.times(t1), t2.times(t3));
    S::law_minus(a.x.times(b.y), b.x.times(a.y));
    S::law_times_commutes(b.x, a.y);
    S::law_minus(c.z.times(b.w), b.z.times(c.w));
    S::law_times_commutes(c.z, b.w);
    let t12 = b.w.times(c.z).plus(b.z.times(c.w).negated());
    lemma_distributes_right(a.x.times(b.y), a.y.times(b.x).negated(), t12);
    S::law_distributes(a.x.times(b.y), b.w.times(c.z), b.z.times(c.w).negated());
    S::law_times_associates(a.x, b.y, b.w.times(c.z));
    lemma_swap_factors(b.y, b.w, c.z);
    lemma_times_negated(a.x.times(b.y), b.z.times(c.w));
    S::law_times_associates(a.x, b.y, b.z.times(c.w));
    S::law_distributes(a.y.times(b.x).negated(), b.w.times(c.z), b.z.times(c.w).negated());
    lemma_negated_times(a.y.times(b.x), b.w.times(c.z));
    S::law_times_associates(a.y, b.x, b.w.times(c.z));
    lemma_swap_factors(b.x, b.w, c.z);
    lemma_negated_times(a.y.times(b.x), b.z.times(c.w).negated());
    lemma_times_negated(a.y.times(b.x), b.z.times(c.w));
    let t13 = a.y.times(b.x).times(b.z.times(c.w));
    lemma_negated_twice(t13);
    S::law_times_associates(a.y, b.x, b.z.times(c.w));
    let t14 = b.w.times(b.y.times(c.z));
    let t15 = b.y.times(b.z.times(c.w));
    let t16 = b.w.times(b.x.times(c.z));
    let t17 = b.x.times(b.z.times(c.w));
    let t18 = a.y.times(t16).negated().plus(a.y.times(t17));
    S::law_plus_associates(a.x.times(t14), a.x.times(t15).negated(), t18);
    S::law_minus(a.x.times(b.z), b.x.times(a.z));
    S::law_times_commutes(b.x, a.z);
    S::law_minus(c.y.times(b.w), b.y.times(c.w));
    S::law_times_commutes(c.y, b.w);
    let t19 = b.w.times(c.y).plus(b.y.times(c.w).negated());
    lemma_distributes_right(a.x.times(b.z), a.z.times(b.x).negated(), t19);
    S::law_distributes(a.x.times(b.z), b.w.times(c.y), b.y.times(c.w).negated());
    S::law_times_associates(a.x, b.z, b.w.times(c.y));
    lemma_swap_factors(b.z, b.w, c.y);
    lemma_times_negated(a.x.times(b.z), b.y.times(c.w));
    S::law_times_associates(a.x, b.z, b.y.times(c.w));
    lemma_swap_factors(b.z, b.y, c.w);
    S::law_distributes(a.z.times(b.x).negated(), b.w.times(c.y), b.y.times(c.w).negated());
    lemma_negated_times(a.z.times(b.x), b.w.times(c.y));
    S::law_times_associates(a.z, b.x, b.w.times(c.y));
    lemma_swap_factors(b.x, b.w, c.y);
    lemma_negated_times(a.z.times(b.x), b.y.times(c.w).negated());
    lemma_times_negated(a.z.times(b.x), b.y.times(c.w));
    let t20 = a.z.times(b.x).times(b.y.times(c.w));
    lemma_negated_twice(t20);
    S::law_times_associates(a.z, b.x, b.y.times(c.w));
    let t21 = b.w.times(b.z.times(c.y));
    let t22 = b.w.times(b.x.times(c.y));
    let t23 = b.x.times(b.y.times(c.w));
    let t24 = a.z.times(t22).negated().plus(a.z.times(t23));
    S::law_plus_associates(a.x.times(t21), a.x.times(t15).negated(), t24);
    let t25 = a.x.times(t15).negated().plus(t24);
    lemma_negated_sum(a.x.times(t21), t25);
    lemma_negated_sum(a.x.times(t15).negated(), t24);
    lemma_negated_twice(a.x.times(t15));
    lemma_negated_sum(a.z.times(t22).negated(), a.z.times(t23));
    lemma_negated_twice(a.z.times(t22));
    let t26 = a.x.times(t15).negated().plus(t18);
    let t27 = a.z.times(t22).plus(a.z.times(t23).negated());
    let t28 = a.x.times(t21).negated().plus(a.x.times(t15).plus(t27));
    S::law_plus_associates(a.x.times(t14), t26, t28);
    S::law_plus_associates(a.x.times(t15).negated(), t18, t28);
    S::law_plus_associates(a.y.times(t16).negated(), a.y.times(t17), t28);
    lemma_swap_terms(a.y.times(t17), a.x.times(t21).negated(), a.x.times(t15).plus(t27));
    lemma_swap_terms(a.y.times(t17), a.x.times(t15), t27);
    let t29 = a.x.times(t15).plus(a.y.times(t17).plus(t27));
    lemma_swap_terms(a.y.times(t16).negated(), a.x.times(t21).negated(), t29);
    lemma_swap_terms(a.y.times(t16).negated(), a.x.times(t15), a.y.times(t17).plus(t27));
    let t30 = a.y.times(t16).negated().plus(a.y.times(t17).plus(t27));
    lemma_swap_terms(
        a.x.times(t15).negated(),
        a.x.times(t21).negated(),
        a.x.times(t15).plus(t30),
    );
    lemma_cancels_front(a.x.times(t15), t30);
    S::law_minus(a.x.times(b.w), b.x.times(a.w));
    S::law_times_commutes(b.x, a.w);
    S::law_plus_commutes(a.x.times(b.w), a.w.times(b.x).negated());
    S::law_minus(c.y.times(b.z), b.y.times(c.z));
    S::law_times_commutes(c.y, b.z);
    S::law_plus_commutes(b.z.times(c.y), b.y.times(c.z).negated());
    let t31 = b.y.times(c.z).negated().plus(b.z.times(c.y));
    lemma_distributes_right(a.w.times(b.x).negated(), a.x.times(b.w), t31);
    S::law_distributes(a.w.times(b.x).negated(), b.y.times(c.z).negated(), b.z.times(c.y));
    lemma_negated_times(a.w.times(b.x), b.y.times(c.z).negated());
    lemma_times_negated(a.w.times(b.x), b.y.times(c.z));
    let t32 = a.w.times(b.x).times(b.y.times(c.z));
    lemma_negated_twice(t32);
    S::law_times_associates(a.w, b.x, b.y.times(c.z));
    lemma_negated_times(a.w.times(b.x), b.z.times(c.y));
    S::law_times_associates(a.w, b.x, b.z.times(c.y));
    S::law_distributes(a.x.times(b.w), b.y.times(c.z).negated(), b.z.times(c.y));
    lemma_times_negated(a.x.times(b.w), b.y.times(c.z));
    S::law_times_associates(a.x, b.w, b.y.times(c.z));
    S::law_times_associates(a.x, b.w, b.z.times(c.y));
    let t33 = b.x.times(b.y.times(c.z));
    let t34 = b.x.times(b.z.times(c.y));
    let t35 = a.x.times(t14).negated().plus(a.x.times(t21));
    S::law_plus_associates(a.w.times(t33), a.w.times(t34).negated(), t35);
    let t36 = a.x.times(t21).negated().plus(t30);
    let t37 = a.w.times(t34).negated().plus(t35);
    S::law_plus_associates(a.x.times(t14), t36, a.w.times(t33).plus(t37));
    S::law_plus_associates(a.x.times(t21).negated(), t30, a.w.times(t33).plus(t37));
    S::law_plus_associates(
        a.y.times(t16).negated(),
        a.y.times(t17).plus(t27),
        a.w.times(t33).plus(t37),
    );
    S::law_plus_associates(a.y.times(t17), t27, a.w.times(t33).plus(t37));
    S::law_plus_associates(a.z.times(t22), a.z.times(t23).negated(), a.w.times(t33).plus(t37));
    lemma_swap_terms(a.z.times(t23).negated(), a.w.times(t33), t37);
    lemma_swap_terms(a.z.times(t23).negated(), a.w.times(t34).negated(), t35);
    lemma_swap_terms(a.z.times(t23).negated(), a.x.times(t14).negated(), a.x.times(t21));
    S::law_plus_commutes(a.z.times(t23).negated(), a.x.times(t21));
    let t38 = a.x.times(t21).plus(a.z.times(t23).negated());
    let t39 = a.x.times(t14).negated().plus(t38);
    let t40 = a.w.times(t34).negated().plus(t39);
    lemma_swap_terms(a.z.times(t22), a.w.times(t33), t40);
    lemma_swap_terms(a.z.times(t22), a.w.times(t34).negated(), t39);
    lemma_swap_terms(a.z.times(t22), a.x.times(t14).negated(), t38);
    lemma_swap_terms(a.z.times(t22), a.x.times(t21), a.z.times(t23).negated());
    let t41 = a.x.times(t14).negated().plus(a.x.times(t21).plus(t27));
    let t42 = a.w.times(t34).negated().plus(t41);
    lemma_swap_terms(a.y.times(t17), a.w.times(t33), t42);
    lemma_swap_terms(a.y.times(t17), a.w.times(t34).negated(), t41);
    lemma_swap_terms(a.y.times(t17), a.x.times(t14).negated(), a.x.times(t21).plus(t27));
    lemma_swap_terms(a.y.times(t17), a.x.times(t21), t27);
    let t43 = a.x.times(t21).plus(a.y.times(t17).plus(t27));
    let t44 = a.x.times(t14).negated().plus(t43);
    let t45 = a.w.times(t34).negated().plus(t44);
    lemma_swap_terms(a.y.times(t16).negated(), a.w.times(t33), t45);
    lemma_swap_terms(a.y.times(t16).negated(), a.w.times(t34).negated(), t44);
    lemma_swap_terms(a.y.times(t16).negated(), a.x.times(t14).negated(), t43);
    lemma_swap_terms(a.y.times(t16).negated(), a.x.times(t21), a.y.times(t17).plus(t27));
    let t46 = a.x.times(t14).negated().plus(a.x.times(t21).plus(t30));
    let t47 = a.w.times(t34).negated().plus(t46);
    lemma_swap_terms(a.x.times(t21).negated(), a.w.times(t33), t47);
    lemma_swap_terms(a.x.times(t21).negated(), a.w.times(t34).negated(), t46);
    lemma_swap_terms(
        a.x.times(t21).negated(),
        a.x.times(t14).negated(),
        a.x.times(t21).plus(t30),
    );
    lemma_cancels_front(a.x.times(t21), t30);
    let t48 = a.x.times(t14).negated().plus(t30);
    let t49 = a.w.times(t34).negated().plus(t48);
    lemma_swap_terms(a.x.times(t14), a.w.times(t33), t49);
    lemma_swap_terms(a.x.times(t14), a.w.times(t34).negated(), t48);
    lemma_cancels_front(a.x.times(t14), t30);
    S::law_minus(a.y.times(b.z), b.y.times(a.z));
    S::law_times_commutes(b.y, a.z);
    S::law_minus(c.x.times(b.w), b.x.times(c.w));
    S::law_times_commutes(c.x, b.w);
    let t50 = b.w.times(c.x).plus(b.x.times(c.w).negated());
    lemma_distributes_right(a.y.times(b.z), a.z.times(b.y).negated(), t50);
    S::law_distributes(a.y.times(b.z), b.w.times(c.x), b.x.times(c.w).negated());
    S::law_times_associates(a.y, b.z, b.w.times(c.x));
    lemma_swap_factors(b.z, b.w, c.x);
    lemma_times_negated(a.y.times(b.z), b.x.times(c.w));
    S::law_times_associates(a.y, b.z, b.x.times(c.w));
    lemma_swap_factors(b.z, b.x, c.w);
    S::law_distributes(a.z.times(b.y).negated(), b.w.times(c.x), b.x.times(c.w).negated());
    lemma_negated_times(a.z.times(b.y), b.w.times(c.x));
    S::law_times_associates(a.z, b.y, b.w.times(c.x));
    lemma_swap_factors(b.y, b.w, c.x);
    lemma_negated_times(a.z.times(b.y), b.x.times(c.w).negated());
    lemma_times_negated(a.z.times(b.y), b.x.times(c.w));
    let t51 = a.z.times(b.y).times(b.x.times(c.w));
    lemma_negated_twice(t51);
    S::law_times_associates(a.z, b.y, b.x.times(c.w));
    lemma_swap_factors(b.y, b.x, c.w);
    let t52 = b.w.times(b.z.times(c.x));
    let t53 = b.w.times(b.y.times(c.x));
    let t54 = a.z.times(t53).negated().plus(a.z.times(t23));
    S::law_plus_associates(a.y.times(t52), a.y.times(t17).negated(), t54);
    let t55 = a.w.times(t34).negated().plus(t30);
    let t56 = a.y.times(t17).negated().plus(t54);
    S::law_plus_associates(a.w.times(t33), t55, a.y.times(t52).plus(t56));
    S::law_plus_associates(a.w.times(t34).negated(), t30, a.y.times(t52).plus(t56));
    S::law_plus_associates(
        a.y.times(t16).negated(),
        a.y.times(t17).plus(t27),
        a.y.times(t52).plus(t56),
    );
    S::law_plus_associates(a.y.times(t17), t27, a.y.times(t52).plus(t56));
    S::law_plus_associates(a.z.times(t22), a.z.times(t23).negated(), a.y.times(t52).plus(t56));
    lemma_swap_terms(a.z.times(t23).negated(), a.y.times(t52), t56);
    lemma_swap_terms(a.z.times(t23).negated(), a.y.times(t17).negated(), t54);
    lemma_swap_terms(a.z.times(t23).negated(), a.z.times(t53).negated(), a.z.times(t23));
    lemma_negated_plus(a.z.times(t23));
    S::law_plus_zero(a.z.times(t53).negated());
    let t57 = a.y.times(t17).negated().plus(a.z.times(t53).negated());
    lemma_swap_terms(a.z.times(t22), a.y.times(t52), t57);
    lemma_swap_terms(a.z.times(t22), a.y.times(t17).negated(), a.z.times(t53).negated());
    let t58 = a.z.times(t22).plus(a.z.times(t53).negated());
    let t59 = a.y.times(t17).negated().plus(t58);
    lemma_swap_terms(a.y.times(t17), a.y.times(t52), t59);
    lemma_cancels_front(a.y.times(t17), t58);
    S::law_minus(a.y.times(b.w), b.y.times(a.w));
    S::law_times_commutes(b.y, a.w);
    S::law_plus_commutes(a.y.times(b.w), a.w.times(b.y).negated());
    S::law_minus(c.x.times(b.z), b.x.times(c.z));
    S::law_times_commutes(c.x, b.z);
    S::law_plus_commutes(b.z.times(c.x), b.x.times(c.z).negated());
    let t60 = b.x.times(c.z).negated().plus(b.z.times(c.x));
    lemma_distributes_right(a.w.times(b.y).negated(), a.y.times(b.w), t60);
    S::law_distributes(a.w.times(b.y).negated(), b.x.times(c.z).negated(), b.z.times(c.x));
    lemma_negated_times(a.w.times(b.y), b.x.times(c.z).negated());
    lemma_times_negated(a.w.times(b.y), b.x.times(c.z));
    let t61 = a.w.times(b.y).times(b.x.times(c.z));
    lemma_negated_twice(t61);
    S::law_times_associates(a.w, b.y, b.x.times(c.z));
    lemma_swap_factors(b.y, b.x, c.z);
    lemma_negated_times(a.w.times(b.y), b.z.times(c.x));
    S::law_times_associates(a.w, b.y, b.z.times(c.x));
    S::law_distributes(a.y.times(b.w), b.x.times(c.z).negated(), b.z.times(c.x));
    lemma_times_negated(a.y.times(b.w), b.x.times(c.z));
    S::law_times_associates(a.y, b.w, b.x.times(c.z));
    S::law_times_associates(a.y, b.w, b.z.times(c.x));
    let t62 = b.y.times(b.z.times(c.x));
    let t63 = a.y.times(t16).negated().plus(a.y.times(t52));
    S::law_plus_associates(a.w.times(t33), a.w.times(t62).negated(), t63);
    let t64 = a.w.times(t62).negated().plus(t63);
    lemma_negated_sum(a.w.times(t33), t64);
    lemma_negated_sum(a.w.times(t62).negated(), t63);
    lemma_negated_twice(a.w.times(t62));
    lemma_negated_sum(a.y.times(t16).negated(), a.y.times(t52));
    lemma_negated_twice(a.y.times(t16));
    let t65 = a.y.times(t16).negated().plus(a.y.times(t52).plus(t58));
    let t66 = a.w.times(t34).negated().plus(t65);
    let t67 = a.y.times(t16).plus(a.y.times(t52).negated());
    let t68 = a.w.times(t33).negated().plus(a.w.times(t62).plus(t67));
    S::law_plus_associates(a.w.times(t33), t66, t68);
    S::law_plus_associates(a.w.times(t34).negated(), t65, t68);
    S::law_plus_associates(a.y.times(t16).negated(), a.y.times(t52).plus(t58), t68);
    S::law_plus_associates(a.y.times(t52), t58, t68);
    S::law_plus_associates(a.z.times(t22), a.z.times(t53).negated(), t68);
    lemma_swap_terms(
        a.z.times(t53).negated(),
        a.w.times(t33).negated(),
        a.w.times(t62).plus(t67),
    );
    lemma_swap_terms(a.z.times(t53).negated(), a.w.times(t62), t67);
    lemma_swap_terms(a.z.times(t53).negated(), a.y.times(t16), a.y.times(t52).negated());
    S::law_plus_commutes(a.z.times(t53).negated(), a.y.times(t52).negated());
    let t69 = a.y.times(t52).negated().plus(a.z.times(t53).negated());
    let t70 = a.w.times(t62).plus(a.y.times(t16).plus(t69));
    lemma_swap_terms(a.z.times(t22), a.w.times(t33).negated(), t70);
    lemma_swap_terms(a.z.times(t22), a.w.times(t62), a.y.times(t16).plus(t69));
    lemma_swap_terms(a.z.times(t22), a.y.times(t16), t69);
    lemma_swap_terms(a.z.times(t22), a.y.times(t52).negated(), a.z.times(t53).negated());
    let t71 = a.y.times(t52).negated().plus(t58);
    let t72 = a.w.times(t62).plus(a.y.times(t16).plus(t71));
    lemma_swap_terms(a.y.times(t52), a.w.times(t33).negated(), t72);
    lemma_swap_terms(a.y.times(t52), a.w.times(t62), a.y.times(t16).plus(t71));
    lemma_swap_terms(a.y.times(t52), a.y.times(t16), t71);
    lemma_cancels_front(a.y.times(t52), t58);
    let t73 = a.w.times(t62).plus(a.y.times(t16).plus(t58));
    lemma_swap_terms(a.y.times(t16).negated(), a.w.times(t33).negated(), t73);
    lemma_swap_terms(a.y.times(t16).negated(), a.w.times(t62), a.y.times(t16).plus(t58));
    lemma_cancels_front(a.y.times(t16), t58);
    lemma_swap_terms(
        a.w.times(t34).negated(),
        a.w.times(t33).negated(),
        a.w.times(t62).plus(t58),
    );
    let t74 = a.w.times(t34).negated().plus(a.w.times(t62).plus(t58));
    lemma_cancels_front(a.w.times(t33), t74);
    S::law_minus(a.z.times(b.w), b.z.times(a.w));
    S::law_times_commutes(b.z, a.w);
    S::law_plus_commutes(a.z.times(b.w), a.w.times(b.z).negated());
    S::law_minus(c.x.times(b.y), b.x.times(c.y));
    S::law_times_commutes(c.x, b.y);
    S::law_plus_commutes(b.y.times(c.x), b.x.times(c.y).negated());
    let t75 = b.x.times(c.y).negated().plus(b.y.times(c.x));
    lemma_distributes_right(a.w.times(b.z).negated(), a.z.times(b.w), t75);
    S::law_distributes(a.w.times(b.z).negated(), b.x.times(c.y).negated(), b.y.times(c.x));
    lemma_negated_times(a.w.times(b.z), b.x.times(c.y).negated());
    lemma_times_negated(a.w.times(b.z), b.x.times(c.y));
    let t76 = a.w.times(b.z).times(b.x.times(c.y));
    lemma_negated_twice(t76);
    S::law_times_associates(a.w, b.z, b.x.times(c.y));
    lemma_swap_factors(b.z, b.x, c.y);
    lemma_negated_times(a.w.times(b.z), b.y.times(c.x));
    S::law_times_associates(a.w, b.z, b.y.times(c.x));
    lemma_swap_factors(b.z, b.y, c.x);
    S::law_distributes(a.z.times(b.w), b.x.times(c.y).negated(), b.y.times(c.x));
    lemma_times_negated(a.z.times(b.w), b.x.times(c.y));
    S::law_times_associates(a.z, b.w, b.x.times(c.y));
    S::law_times_associates(a.z, b.w, b.y.times(c.x));
    let t77 = a.z.times(t22).negated().plus(a.z.times(t53));
    S::law_plus_associates(a.w.times(t34), a.w.times(t62).negated(), t77);
    let t78 = a.w.times(t62).negated().plus(t77);
    S::law_plus_associates(
        a.w.times(t34).negated(),
        a.w.times(t62).plus(t58),
        a.w.times(t34).plus(t78),
    );
    S::law_plus_associates(a.w.times(t62), t58, a.w.times(t34).plus(t78));
    S::law_plus_associates(a.z.times(t22), a.z.times(t53).negated(), a.w.times(t34).plus(t78));
    lemma_swap_terms(a.z.times(t53).negated(), a.w.times(t34), t78);
    lemma_swap_terms(a.z.times(t53).negated(), a.w.times(t62).negated(), t77);
    lemma_swap_terms(a.z.times(t53).negated(), a.z.times(t22).negated(), a.z.times(t53));
    lemma_negated_plus(a.z.times(t53));
    S::law_plus_zero(a.z.times(t22).negated());
    let t79 = a.w.times(t62).negated().plus(a.z.times(t22).negated());
    lemma_swap_terms(a.z.times(t22), a.w.times(t34), t79);
    lemma_swap_terms(a.z.times(t22), a.w.times(t62).negated(), a.z.times(t22).negated());
    S::law_plus_negated(a.z.times(t22));
    S::law_plus_zero(a.w.times(t62).negated());
    lemma_swap_terms(a.w.times(t62), a.w.times(t34), a.w.times(t62).negated());
    S::law_plus_negated(a.w.times(t62));
    S::law_plus_zero(a.w.times(t34));
    lemma_negated_plus(a.w.times(t34));
}

/// The adjugate of the transpose is the transpose of the adjugate.
pub proof fn lemma_adjugate4_transposes<S: Field>(m: Matrix4x4<S>)
    ensures
        m.transposed().adjugate() == m.adjugate().transposed(),
{
    let t0 = m.c2r2.times(m.c3r3).minus(m.c3r2.times(m.c2r3));
    let t1 = m.c2r1.times(m.c3r3).minus(m.c3r1.times(m.c2r3));
    S::law_minus(m.c1r1.times(t0), m.c1r2.times(t1));
    S::law_minus(m.c2r2.times(m.c3r3), m.c3r2.times(m.c2r3));
    S::law_times_commutes(m.c3r2, m.c2r3);
    let t2 = m.c2r3.times(m.c3r2).negated();
    S::law_distributes(m.c1r1, m.c2r2.times(m.c3r3), t2);
    lemma_times_negated(m.c1r1, m.c2r3.times(m.c3r2));
    S::law_minus(m.c2r1.times(m.c3r3), m.c3r1.times(m.c2r3));
    S::law_times_commutes(m.c3r1, m.c2r3);
    let t3 = m.c2r3.times(m.c3r1).negated();
    S::law_distributes(m.c1r2, m.c2r1.times(m.c3r3), t3);
    lemma_times_negated(m.c1r2, m.c2r3.times(m.c3r1));
    let t4 = m.c1r2.times(m.c2r1.times(m.c3r3));
    let t5 = m.c1r2.times(m.c2r3.times(m.c3r1));
    lemma_negated_sum(t4, t5.negated());
    lemma_negated_twice(t5);
    let t6 = m.c1r1.times(m.c2r2.times(m.c3r3));
    let t7 = m.c1r1.times(m.c2r3.times(m.c3r2));
    S::law_plus_associates(t6, t7.negated(), t4.negated().plus(t5));
    S::law_minus(m.c2r1.times(m.c3r2), m.c3r1.times(m.c2r2));
    S::law_times_commutes(m.c3r1, m.c2r2);
    let t8 = m.c2r2.times(m.c3r1).negated();
    S::law_distributes(m.c1r3, m.c2r1.times(m.c3r2), t8);
    lemma_times_negated(m.c1r3, m.c2r2.times(m.c3r1));
    let t9 = t7.negated().plus(t4.negated().plus(t5));
    let t10 = m.c1r3.times(m.c2r1.times(m.c3r2));
    let t11 = m.c1r3.times(m.c2r2.times(m.c3r1));
    S::law_plus_associates(t6, t9, t10.plus(t11.negated()));
    S::law_plus_associates(t7.negated(), t4.negated().plus(t5), t10.plus(t11.negated()));
    S::law_plus_associates(t4.negated(), t5, t10.plus(t11.negated()));
    let t12 = m.c2r2.times(m.c3r3).minus(m.c2r3.times(m.c3r2));
    let t13 = m.c1r2.times(m.c3r3).minus(m.c1r3.times(m.c3r2));
    S::law_minus(m.c1r1.times(t12), m.c2r1.times(t13));
    S::law_minus(m.c2r2.times(m.c3r3), m.c2r3.times(m.c3r2));
    S::law_distributes(m.c1r1, m.c2r2.times(m.c3r3), t2);
    lemma_times_negated(m.c1r1, m.c2r3.times(m.c3r2));
    S::law_minus(m.c1r2.times(m.c3r3), m.c1r3.times(m.c3r2));
    let t14 = m.c1r3.times(m.c3r2).negated();
    S::law_distributes(m.c2r1, m.c1r2.times(m.c3r3), t14);
    lemma_swap_factors(m.c2r1, m.c1r2, m.c3r3);
    lemma_times_negated(m.c2r1, m.c1r3.times(m.c3r2));
    lemma_swap_factors(m.c2r1, m.c1r3, m.c3r2);
    lemma_negated_sum(t4, t10.negated());
    lemma_negated_twice(t10);
    S::law_plus_associates(t6, t7.negated(), t4.negated().plus(t10));
    S::law_minus(m.c1r2.times(m.c2r3), m.c1r3.times(m.c2r2));
    let t15 = m.c1r3.times(m.c2r2).negated();
    S::law_distributes(m.c3r1, m.c1r2.times(m.c2r3), t15);
    lemma_swap_factors(m.c3r1, m.c1r2, m.c2r3);
    S::law_times_commutes(m.c3r1, m.c2r3);
    lemma_times_negated(m.c3r1, m.c1r3.times(m.c2r2));
    lemma_swap_factors(m.c3r1, m.c1r3, m.c2r2);
    S::law_times_commutes(m.c3r1, m.c2r2);
    let t16 = t7.negated().plus(t4.negated().plus(t10));
    S::law_plus_associates(t6, t16, t5.plus(t11.negated()));
    S::law_plus_associates(t7.negated(), t4.negated().plus(t10), t5.plus(t11.negated()));
    S::law_plus_associates(t4.negated(), t10, t5.plus(t11.negated()));
    lemma_swap_terms(t10, t5, t11.negated());
    let t17 = m.c0r2.times(t1).minus(m.c0r1.times(t0));
    let t18 = m.c2r1.times(m.c3r2).minus(m.c3r1.times(m.c2r2));
    S::law_minus(t17, m.c0r3.times(t18));
    S::law_minus(m.c0r2.times(t1), m.c0r1.times(t0));
    S::law_distributes(m.c0r2, m.c2r1.times(m.c3r3), t3);
    lemma_times_negated(m.c0r2, m.c2r3.times(m.c3r1));
    S::law_distributes(m.c0r1, m.c2r2.times(m.c3r3), t2);
    lemma_times_negated(m.c0r1, m.c2r3.times(m.c3r2));
    let t19 = m.c0r1.times(m.c2r2.times(m.c3r3));
    let t20 = m.c0r1.times(m.c2r3.times(m.c3r2));
    lemma_negated_sum(t19, t20.negated());
    lemma_negated_twice(t20);
    let t21 = m.c0r2.times(m.c2r1.times(m.c3r3));
    let t22 = m.c0r2.times(m.c2r3.times(m.c3r1));
    S::law_plus_associates(t21, t22.negated(), t19.negated().plus(t20));
    lemma_swap_terms(t22.negated(), t19.negated(), t20);
    S::law_plus_commutes(t22.negated(), t20);
    lemma_swap_terms(t21, t19.negated(), t20.plus(t22.negated()));
    lemma_swap_terms(t21, t20, t22.negated());
    S::law_distributes(m.c0r3, m.c2r1.times(m.c3r2), t8);
    lemma_times_negated(m.c0r3, m.c2r2.times(m.c3r1));
    let t23 = m.c0r3.times(m.c2r1.times(m.c3r2));
    let t24 = m.c0r3.times(m.c2r2.times(m.c3r1));
    lemma_negated_sum(t23, t24.negated());
    lemma_negated_twice(t24);
    let t25 = t20.plus(t21.plus(t22.negated()));
    S::law_plus_associates(t19.negated(), t25, t23.negated().plus(t24));
    S::law_plus_associates(t20, t21.plus(t22.negated()), t23.negated().plus(t24));
    S::law_plus_associates(t21, t22.negated(), t23.negated().plus(t24));
    let t26 = m.c0r2.times(m.c3r3).minus(m.c0r3.times(m.c3r2));
    let t27 = m.c2r1.times(t26).minus(m.c0r1.times(t12));
    let t28 = m.c0r2.times(m.c2r3).minus(m.c0r3.times(m.c2r2));
    S::law_minus(t27, m.c3r1.times(t28));
    S::law_minus(m.c2r1.times(t26), m.c0r1.times(t12));
    S::law_minus(m.c0r2.times(m.c3r3), m.c0r3.times(m.c3r2));
    let t29 = m.c0r3.times(m.c3r2).negated();
    S::law_distributes(m.c2r1, m.c0r2.times(m.c3r3), t29);
    lemma_swap_factors(m.c2r1, m.c0r2, m.c3r3);
    lemma_times_negated(m.c2r1, m.c0r3.times(m.c3r2));
    lemma_swap_factors(m.c2r1, m.c0r3, m.c3r2);
    S::law_distributes(m.c0r1, m.c2r2.times(m.c3r3), t2);
    lemma_times_negated(m.c0r1, m.c2r3.times(m.c3r2));
    lemma_negated_sum(t19, t20.negated());
    lemma_negated_twice(t20);
    S::law_plus_associates(t21, t23.negated(), t19.negated().plus(t20));
    lemma_swap_terms(t23.negated(), t19.negated(), t20);
    S::law_plus_commutes(t23.negated(), t20);
    lemma_swap_terms(t21, t19.negated(), t20.plus(t23.negated()));
    lemma_swap_terms(t21, t20, t23.negated());
    S::law_minus(m.c0r2.times(m.c2r3), m.c0r3.times(m.c2r2));
    let t30 = m.c0r3.times(m.c2r2).negated();
    S::law_distributes(m.c3r1, m.c0r2.times(m.c2r3), t30);
    lemma_swap_factors(m.c3r1, m.c0r2, m.c2r3);
    S::law_times_commutes(m.c3r1, m.c2r3);
    lemma_times_negated(m.c3r1, m.c0r3.times(m.c2r2));
    lemma_swap_factors(m.c3r1, m.c0r3, m.c2r2);
    S::law_times_commutes(m.c3r1, m.c2r2);
    lemma_negated_sum(t22, t24.negated());
    lemma_negated_twice(t24);
    let t31 = t20.plus(t21.plus(t23.negated()));
    S::law_plus_associates(t19.negated(), t31, t22.negated().plus(t24));
    S::law_plus_associates(t20, t21.plus(t23.negated()), t22.negated().plus(t24));
    S::law_plus_associates(t21, t23.negated(), t22.negated().plus(t24));
    lemma_swap_terms(t23.negated(), t22.negated(), t24);
    let t32 = m.c0r2.times(m.c1r3).minus(m.c1r2.times(m.c0r3));
    let t33 = m.c0r1.times(m.c1r3).minus(m.c1r1.times(m.c0r3));
    S::law_minus(m.c3r1.times(t32), m.c3r2.times(t33));
    S::law_minus(m.c0r2.times(m.c1r3), m.c1r2.times(m.c0r3));
    S::law_times_commutes(m.c1r2, m.c0r3);
    let t34 = m.c0r3.times(m.c1r2).negated();
    S::law_distributes(m.c3r1, m.c0r2.times(m.c1r3), t34);
    lemma_swap_factors(m.c3r1, m.c0r2, m.c1r3);
    S::law_times_commutes(m.c3r1, m.c1r3);
    lemma_times_negated(m.c3r1, m.c0r3.times(m.c1r2));
    lemma_swap_factors(m.c3r1, m.c0r3, m.c1r2);
    S::law_times_commutes(m.c3r1, m.c1r2);
    S::law_minus(m.c0r1.times(m.c1r3), m.c1r1.times(m.c0r3));
    S::law_times_commutes(m.c1r1, m.c0r3);
    let t35 = m.c0r3.times(m.c1r1).negated();
    S::law_distributes(m.c3r2, m.c0r1.times(m.c1r3), t35);
    lemma_swap_factors(m.c3r2, m.c0r1, m.c1r3);
    S::law_times_commutes(m.c3r2, m.c1r3);
    lemma_times_negated(m.c3r2, m.c0r3.times(m.c1r1));
    lemma_swap_factors(m.c3r2, m.c0r3, m.c1r1);
    S::law_times_commutes(m.c3r2, m.c1r1);
    let t36 = m.c0r1.times(m.c1r3.times(m.c3r2));
    let t37 = m.c0r3.times(m.c1r1.times(m.c3r2));
    lemma_negated_sum(t36, t37.negated());
    lemma_negated_twice(t37);
    let t38 = m.c0r2.times(m.c1r3.times(m.c3r1));
    let t39 = m.c0r3.times(m.c1r2.times(m.c3r1));
    S::law_plus_associates(t38, t39.negated(), t36.negated().plus(t37));
    lemma_swap_terms(t39.negated(), t36.negated(), t37);
    S::law_plus_commutes(t39.negated(), t37);
    lemma_swap_terms(t38, t36.negated(), t37.plus(t39.negated()));
    S::law_minus(m.c0r1.times(m.c1r2), m.c1r1.times(m.c0r2));
    S::law_times_commutes(m.c1r1, m.c0r2);
    let t40 = m.c0r2.times(m.c1r1).negated();
    S::law_distributes(m.c3r3, m.c0r1.times(m.c1r2), t40);
    lemma_swap_factors(m.c3r3, m.c0r1, m.c1r2);
    S::law_times_commutes(m.c3r3, m.c1r2);
    lemma_times_negated(m.c3r3, m.c0r2.times(m.c1r1));
    lemma_swap_factors(m.c3r3, m.c0r2, m.c1r1);
    S::law_times_commutes(m.c3r3, m.c1r1);
    let t41 = t38.plus(t37.plus(t39.negated()));
    let t42 = m.c0r1.times(m.c1r2.times(m.c3r3));
    let t43 = m.c0r2.times(m.c1r1.times(m.c3r3));
    S::law_plus_associates(t36.negated(), t41, t42.plus(t43.negated()));
    S::law_plus_associates(t38, t37.plus(t39.negated()), t42.plus(t43.negated()));
    S::law_plus_associates(t37, t39.negated(), t42.plus(t43.negated()));
    lemma_swap_terms(t39.negated(), t42, t43.negated());
    S::law_plus_commutes(t39.negated(), t43.negated());
    let t44 = t43.negated().plus(t39.negated());
    lemma_swap_terms(t37, t42, t44);
    lemma_swap_terms(t37, t43.negated(), t39.negated());
    let t45 = t43.negated().plus(t37.plus(t39.negated()));
    lemma_swap_terms(t38, t42, t45);
    lemma_swap_terms(t38, t43.negated(), t37.plus(t39.negated()));
    lemma_swap_terms(t36.negated(), t42, t43.negated().plus(t41));
    S::law_minus(m.c0r1.times(t13), m.c1r1.times(t26));
    S::law_distributes(m.c0r1, m.c1r2.times(m.c3r3), t14);
    lemma_times_negated(m.c0r1, m.c1r3.times(m.c3r2));
    S::law_distributes(m.c1r1, m.c0r2.times(m.c3r3), t29);
    lemma_swap_factors(m.c1r1, m.c0r2, m.c3r3);
    lemma_times_negated(m.c1r1, m.c0r3.times(m.c3r2));
    lemma_swap_factors(m.c1r1, m.c0r3, m.c3r2);
    lemma_negated_sum(t43, t37.negated());
    lemma_negated_twice(t37);
    S::law_plus_associates(t42, t36.negated(), t43.negated().plus(t37));
    S::law_minus(m.c0r2.times(m.c1r3), m.c0r3.times(m.c1r2));
    S::law_distributes(m.c3r1, m.c0r2.times(m.c1r3), t34);
    lemma_swap_factors(m.c3r1, m.c0r2, m.c1r3);
    S::law_times_commutes(m.c3r1, m.c1r3);
    lemma_times_negated(m.c3r1, m.c0r3.times(m.c1r2));
    lemma_swap_factors(m.c3r1, m.c0r3, m.c1r2);
    S::law_times_commutes(m.c3r1, m.c1r2);
    let t46 = t36.negated().plus(t43.negated().plus(t37));
    S::law_plus_associates(t42, t46, t38.plus(t39.negated()));
    S::law_plus_associates(t36.negated(), t43.negated().plus(t37), t38.plus(t39.negated()));
    S::law_plus_associates(t43.negated(), t37, t38.plus(t39.negated()));
    lemma_swap_terms(t37, t38, t39.negated());
    let t47 = m.c2r2.times(t33).minus(m.c2r1.times(t32));
    let t48 = m.c0r1.times(m.c1r2).minus(m.c1r1.times(m.c0r2));
    S::law_minus(t47, m.c2r3.times(t48));
    S::law_minus(m.c2r2.times(t33), m.c2r1.times(t32));
    S::law_distributes(m.c2r2, m.c0r1.times(m.c1r3), t35);
    lemma_swap_factors(m.c2r2, m.c0r1, m.c1r3);
    S::law_times_commutes(m.c2r2, m.c1r3);
    lemma_times_negated(m.c2r2, m.c0r3.times(m.c1r1));
    lemma_swap_factors(m.c2r2, m.c0r3, m.c1r1);
    S::law_times_commutes(m.c2r2, m.c1r1);
    S::law_distributes(m.c2r1, m.c0r2.times(m.c1r3), t34);
    lemma_swap_factors(m.c2r1, m.c0r2, m.c1r3);
    S::law_times_commutes(m.c2r1, m.c1r3);
    lemma_times_negated(m.c2r1, m.c0r3.times(m.c1r2));
    lemma_swap_factors(m.c2r1, m.c0r3, m.c1r2);
    S::law_times_commutes(m.c2r1, m.c1r2);
    let t49 = m.c0r2.times(m.c1r3.times(m.c2r1));
    let t50 = m.c0r3.times(m.c1r2.times(m.c2r1));
    lemma_negated_sum(t49, t50.negated());
    lemma_negated_twice(t50);
    let t51 = m.c0r1.times(m.c1r3.times(m.c2r2));
    let t52 = m.c0r3.times(m.c1r1.times(m.c2r2));
    S::law_plus_associates(t51, t52.negated(), t49.negated().plus(t50));
    lemma_swap_terms(t52.negated(), t49.negated(), t50);
    S::law_distributes(m.c2r3, m.c0r1.times(m.c1r2), t40);
    lemma_swap_factors(m.c2r3, m.c0r1, m.c1r2);
    S::law_times_commutes(m.c2r3, m.c1r2);
    lemma_times_negated(m.c2r3, m.c0r2.times(m.c1r1));
    lemma_swap_factors(m.c2r3, m.c0r2, m.c1r1);
    S::law_times_commutes(m.c2r3, m.c1r1);
    let t53 = m.c0r1.times(m.c1r2.times(m.c2r3));
    let t54 = m.c0r2.times(m.c1r1.times(m.c2r3));
    lemma_negated_sum(t53, t54.negated());
    lemma_negated_twice(t54);
    let t55 = t49.negated().plus(t52.negated().plus(t50));
    S::law_plus_associates(t51, t55, t53.negated().plus(t54));
    S::law_plus_associates(t49.negated(), t52.negated().plus(t50), t53.negated().plus(t54));
    S::law_plus_associates(t52.negated(), t50, t53.negated().plus(t54));
    lemma_swap_terms(t50, t53.negated(), t54);
    S::law_plus_commutes(t50, t54);
    lemma_swap_terms(t52.negated(), t53.negated(), t54.plus(t50));
    lemma_swap_terms(t52.negated(), t54, t50);
    let t56 = t54.plus(t52.negated().plus(t50));
    lemma_swap_terms(t49.negated(), t53.negated(), t56);
    lemma_swap_terms(t49.negated(), t54, t52.negated().plus(t50));
    lemma_swap_terms(t51, t53.negated(), t54.plus(t55));
    let t57 = m.c1r2.times(m.c2r3).minus(m.c1r3.times(m.c2r2));
    let t58 = m.c1r1.times(t28).minus(m.c0r1.times(t57));
    let t59 = m.c0r2.times(m.c1r3).minus(m.c0r3.times(m.c1r2));
    S::law_minus(t58, m.c2r1.times(t59));
    S::law_minus(m.c1r1.times(t28), m.c0r1.times(t57));
    S::law_distributes(m.c1r1, m.c0r2.times(m.c2r3), t30);
    lemma_swap_factors(m.c1r1, m.c0r2, m.c2r3);
    lemma_times_negated(m.c1r1, m.c0r3.times(m.c2r2));
    lemma_swap_factors(m.c1r1, m.c0r3, m.c2r2);
    S::law_distributes(m.c0r1, m.c1r2.times(m.c2r3), t15);
    lemma_times_negated(m.c0r1, m.c1r3.times(m.c2r2));
    lemma_negated_sum(t53, t51.negated());
    lemma_negated_twice(t51);
    S::law_plus_associates(t54, t52.negated(), t53.negated().plus(t51));
    lemma_swap_terms(t52.negated(), t53.negated(), t51);
    S::law_plus_commutes(t52.negated(), t51);
    lemma_swap_terms(t54, t53.negated(), t51.plus(t52.negated()));
    lemma_swap_terms(t54, t51, t52.negated());
    S::law_distributes(m.c2r1, m.c0r2.times(m.c1r3), t34);
    lemma_swap_factors(m.c2r1, m.c0r2, m.c1r3);
    S::law_times_commutes(m.c2r1, m.c1r3);
    lemma_times_negated(m.c2r1, m.c0r3.times(m.c1r2));
    lemma_swap_factors(m.c2r1, m.c0r3, m.c1r2);
    S::law_times_commutes(m.c2r1, m.c1r2);
    lemma_negated_sum(t49, t50.negated());
    lemma_negated_twice(t50);
    let t60 = t51.plus(t54.plus(t52.negated()));
    S::law_plus_associates(t53.negated(), t60, t49.negated().plus(t50));
    S::law_plus_associates(t51, t54.plus(t52.negated()), t49.negated().plus(t50));
    S::law_plus_associates(t54, t52.negated(), t49.negated().plus(t50));
    lemma_swap_terms(t52.negated(), t49.negated(), t50);
    let t61 = m.c2r0.times(m.c3r3).minus(m.c3r0.times(m.c2r3));
    let t62 = m.c1r2.times(t61).minus(m.c1r0.times(t0));
    let t63 = m.c2r0.times(m.c3r2).minus(m.c3r0.times(m.c2r2));
    S::law_minus(t62, m.c1r3.times(t63));
    S::law_minus(m.c1r2.times(t61), m.c1r0.times(t0));
    S::law_minus(m.c2r0.times(m.c3r3), m.c3r0.times(m.c2r3));
    S::law_times_commutes(m.c3r0, m.c2r3);
    let t64 = m.c2r3.times(m.c3r0).negated();
    S::law_distributes(m.c1r2, m.c2r0.times(m.c3r3), t64);
    lemma_times_negated(m.c1r2, m.c2r3.times(m.c3r0));
    S::law_distributes(m.c1r0, m.c2r2.times(m.c3r3), t2);
    lemma_times_negated(m.c1r0, m.c2r3.times(m.c3r2));
    let t65 = m.c1r0.times(m.c2r2.times(m.c3r3));
    let t66 = m.c1r0.times(m.c2r3.times(m.c3r2));
    lemma_negated_sum(t65, t66.negated());
    lemma_negated_twice(t66);
    let t67 = m.c1r2.times(m.c2r0.times(m.c3r3));
    let t68 = m.c1r2.times(m.c2r3.times(m.c3r0));
    S::law_plus_associates(t67, t68.negated(), t65.negated().plus(t66));
    lemma_swap_terms(t68.negated(), t65.negated(), t66);
    S::law_plus_commutes(t68.negated(), t66);
    lemma_swap_terms(t67, t65.negated(), t66.plus(t68.negated()));
    lemma_swap_terms(t67, t66, t68.negated());
    S::law_minus(m.c2r0.times(m.c3r2), m.c3r0.times(m.c2r2));
    S::law_times_commutes(m.c3r0, m.c2r2);
    let t69 = m.c2r2.times(m.c3r0).negated();
    S::law_distributes(m.c1r3, m.c2r0.times(m.c3r2), t69);
    lemma_times_negated(m.c1r3, m.c2r2.times(m.c3r0));
    let t70 = m.c1r3.times(m.c2r0.times(m.c3r2));
    let t71 = m.c1r3.times(m.c2r2.times(m.c3r0));
    lemma_negated_sum(t70, t71.negated());
    lemma_negated_twice(t71);
    let t72 = t66.plus(t67.plus(t68.negated()));
    S::law_plus_associates(t65.negated(), t72, t70.negated().plus(t71));
    S::law_plus_associates(t66, t67.plus(t68.negated()), t70.negated().plus(t71));
    S::law_plus_associates(t67, t68.negated(), t70.negated().plus(t71));
    let t73 = m.c2r0.times(t13).minus(m.c1r0.times(t12));
    S::law_minus(t73, m.c3r0.times(t57));
    S::law_minus(m.c2r0.times(t13), m.c1r0.times(t12));
    S::law_distributes(m.c2r0, m.c1r2.times(m.c3r3), t14);
    lemma_swap_factors(m.c2r0, m.c1r2, m.c3r3);
    lemma_times_negated(m.c2r0, m.c1r3.times(m.c3r2));
    lemma_swap_factors(m.c2r0, m.c1r3, m.c3r2);
    S::law_distributes(m.c1r0, m.c2r2.times(m.c3r3), t2);
    lemma_times_negated(m.c1r0, m.c2r3.times(m.c3r2));
    lemma_negated_sum(t65, t66.negated());
    lemma_negated_twice(t66);
    S::law_plus_associates(t67, t70.negated(), t65.negated().plus(t66));
    lemma_swap_terms(t70.negated(), t65.negated(), t66);
    S::law_plus_commutes(t70.negated(), t66);
    lemma_swap_terms(t67, t65.negated(), t66.plus(t70.negated()));
    lemma_swap_terms(t67, t66, t70.negated());
    S::law_distributes(m.c3r0, m.c1r2.times(m.c2r3), t15);
    lemma_swap_factors(m.c3r0, m.c1r2, m.c2r3);
    S::law_times_commutes(m.c3r0, m.c2r3);
    lemma_times_negated(m.c3r0, m.c1r3.times(m.c2r2));
    lemma_swap_factors(m.c3r0, m.c1r3, m.c2r2);
    S::law_times_commutes(m.c3r0, m.c2r2);
    lemma_negated_sum(t68, t71.negated());
    lemma_negated_twice(t71);
    let t74 = t66.plus(t67.plus(t70.negated()));
    S::law_plus_associates(t65.negated(), t74, t68.negated().plus(t71));
    S::law_plus_associates(t66, t67.plus(t70.negated()), t68.negated().plus(t71));
    S::law_plus_associates(t67, t70.negated(), t68.negated().plus(t71));
    lemma_swap_terms(t70.negated(), t68.negated(), t71);
    S::law_minus(m.c0r0.times(t0), m.c0r2.times(t61));
    S::law_distributes(m.c0r0, m.c2r2.times(m.c3r3), t2);
    lemma_times_negated(m.c0r0, m.c2r3.times(m.c3r2));
    S::law_distributes(m.c0r2, m.c2r0.times(m.c3r3), t64);
    lemma_times_negated(m.c0r2, m.c2r3.times(m.c3r0));
    let t75 = m.c0r2.times(m.c2r0.times(m.c3r3));
    let t76 = m.c0r2.times(m.c2r3.times(m.c3r0));
    lemma_negated_sum(t75, t76.negated());
    lemma_negated_twice(t76);
    let t77 = m.c0r0.times(m.c2r2.times(m.c3r3));
    let t78 = m.c0r0.times(m.c2r3.times(m.c3r2));
    S::law_plus_associates(t77, t78.negated(), t75.negated().plus(t76));
    S::law_distributes(m.c0r3, m.c2r0.times(m.c3r2), t69);
    lemma_times_negated(m.c0r3, m.c2r2.times(m.c3r0));
    let t79 = t78.negated().plus(t75.negated().plus(t76));
    let t80 = m.c0r3.times(m.c2r0.times(m.c3r2));
    let t81 = m.c0r3.times(m.c2r2.times(m.c3r0));
    S::law_plus_associates(t77, t79, t80.plus(t81.negated()));
    S::law_plus_associates(t78.negated(), t75.negated().plus(t76), t80.plus(t81.negated()));
    S::law_plus_associates(t75.negated(), t76, t80.plus(t81.negated()));
    S::law_minus(m.c0r0.times(t12), m.c2r0.times(t26));
    S::law_distributes(m.c0r0, m.c2r2.times(m.c3r3), t2);
    lemma_times_negated(m.c0r0, m.c2r3.times(m.c3r2));
    S::law_distributes(m.c2r0, m.c0r2.times(m.c3r3), t29);
    lemma_swap_factors(m.c2r0, m.c0r2, m.c3r3);
    lemma_times_negated(m.c2r0, m.c0r3.times(m.c3r2));
    lemma_swap_factors(m.c2r0, m.c0r3, m.c3r2);
    lemma_negated_sum(t75, t80.negated());
    lemma_negated_twice(t80);
    S::law_plus_associates(t77, t78.negated(), t75.negated().plus(t80));
    S::law_distributes(m.c3r0, m.c0r2.times(m.c2r3), t30);
    lemma_swap_factors(m.c3r0, m.c0r2, m.c2r3);
    S::law_times_commutes(m.c3r0, m.c2r3);
    lemma_times_negated(m.c3r0, m.c0r3.times(m.c2r2));
    lemma_swap_factors(m.c3r0, m.c0r3, m.c2r2);
    S::law_times_commutes(m.c3r0, m.c2r2);
    let t82 = t78.negated().plus(t75.negated().plus(t80));
    S::law_plus_associates(t77, t82, t76.plus(t81.negated()));
    S::law_plus_associates(t78.negated(), t75.negated().plus(t80), t76.plus(t81.negated()));
    S::law_plus_associates(t75.negated(), t80, t76.plus(t81.negated()));
    lemma_swap_terms(t80, t76, t81.negated());
    let t83 = m.c0r0.times(m.c1r3).minus(m.c1r0.times(m.c0r3));
    let t84 = m.c3r2.times(t83).minus(m.c3r0.times(t32));
    let t85 = m.c0r0.times(m.c1r2).minus(m.c1r0.times(m.c0r2));
    S::law_minus(t84, m.c3r3.times(t85));
    S::law_minus(m.c3r2.times(t83), m.c3r0.times(t32));
    S::law_minus(m.c0r0.times(m.c1r3), m.c1r0.times(m.c0r3));
    S::law_times_commutes(m.c1r0, m.c0r3);
    let t86 = m.c0r3.times(m.c1r0).negated();
    S::law_distributes(m.c3r2, m.c0r0.times(m.c1r3), t86);
    lemma_swap_factors(m.c3r2, m.c0r0, m.c1r3);
    S::law_times_commutes(m.c3r2, m.c1r3);
    lemma_times_negated(m.c3r2, m.c0r3.times(m.c1r0));
    lemma_swap_factors(m.c3r2, m.c0r3, m.c1r0);
    S::law_times_commutes(m.c3r2, m.c1r0);
    S::law_distributes(m.c3r0, m.c0r2.times(m.c1r3), t34);
    lemma_swap_factors(m.c3r0, m.c0r2, m.c1r3);
    S::law_times_commutes(m.c3r0, m.c1r3);
    lemma_times_negated(m.c3r0, m.c0r3.times(m.c1r2));
    lemma_swap_factors(m.c3r0, m.c0r3, m.c1r2);
    S::law_times_commutes(m.c3r0, m.c1r2);
    let t87 = m.c0r2.times(m.c1r3.times(m.c3r0));
    let t88 = m.c0r3.times(m.c1r2.times(m.c3r0));
    lemma_negated_sum(t87, t88.negated());
    lemma_negated_twice(t88);
    let t89 = m.c0r0.times(m.c1r3.times(m.c3r2));
    let t90 = m.c0r3.times(m.c1r0.times(m.c3r2));
    S::law_plus_associates(t89, t90.negated(), t87.negated().plus(t88));
    lemma_swap_terms(t90.negated(), t87.negated(), t88);
    S::law_minus(m.c0r0.times(m.c1r2), m.c1r0.times(m.c0r2));
    S::law_times_commutes(m.c1r0, m.c0r2);
    let t91 = m.c0r2.times(m.c1r0).negated();
    S::law_distributes(m.c3r3, m.c0r0.times(m.c1r2), t91);
    lemma_swap_factors(m.c3r3, m.c0r0, m.c1r2);
    S::law_times_commutes(m.c3r3, m.c1r2);
    lemma_times_negated(m.c3r3, m.c0r2.times(m.c1r0));
    lemma_swap_factors(m.c3r3, m.c0r2, m.c1r0);
    S::law_times_commutes(m.c3r3, m.c1r0);
    let t92 = m.c0r0.times(m.c1r2.times(m.c3r3));
    let t93 = m.c0r2.times(m.c1r0.times(m.c3r3));
    lemma_negated_sum(t92, t93.negated());
    lemma_negated_twice(t93);
    let t94 = t87.negated().plus(t90.negated().plus(t88));
    S::law_plus_associates(t89, t94, t92.negated().plus(t93));
    S::law_plus_associates(t87.negated(), t90.negated().plus(t88), t92.negated().plus(t93));
    S::law_plus_associates(t90.negated(), t88, t92.negated().plus(t93));
    lemma_swap_terms(t88, t92.negated(), t93);
    S::law_plus_commutes(t88, t93);
    lemma_swap_terms(t90.negated(), t92.negated(), t93.plus(t88));
    lemma_swap_terms(t90.negated(), t93, t88);
    let t95 = t93.plus(t90.negated().plus(t88));
    lemma_swap_terms(t87.negated(), t92.negated(), t95);
    lemma_swap_terms(t87.negated(), t93, t90.negated().plus(t88));
    lemma_swap_terms(t89, t92.negated(), t93.plus(t94));
    let t96 = m.c1r0.times(t26).minus(m.c0r0.times(t13));
    S::law_minus(t96, m.c3r0.times(t59));
    S::law_minus(m.c1r0.times(t26), m.c0r0.times(t13));
    S::law_distributes(m.c1r0, m.c0r2.times(m.c3r3), t29);
    lemma_swap_factors(m.c1r0, m.c0r2, m.c3r3);
    lemma_times_negated(m.c1r0, m.c0r3.times(m.c3r2));
    lemma_swap_factors(m.c1r0, m.c0r3, m.c3r2);
    S::law_distributes(m.c0r0, m.c1r2.times(m.c3r3), t14);
    lemma_times_negated(m.c0r0, m.c1r3.times(m.c3r2));
    lemma_negated_sum(t92, t89.negated());
    lemma_negated_twice(t89);
    S::law_plus_associates(t93, t90.negated(), t92.negated().plus(t89));
    lemma_swap_terms(t90.negated(), t92.negated(), t89);
    S::law_plus_commutes(t90.negated(), t89);
    lemma_swap_terms(t93, t92.negated(), t89.plus(t90.negated()));
    lemma_swap_terms(t93, t89, t90.negated());
    S::law_distributes(m.c3r0, m.c0r2.times(m.c1r3), t34);
    lemma_swap_factors(m.c3r0, m.c0r2, m.c1r3);
    S::law_times_commutes(m.c3r0, m.c1r3);
    lemma_times_negated(m.c3r0, m.c0r3.times(m.c1r2));
    lemma_swap_factors(m.c3r0, m.c0r3, m.c1r2);
    S::law_times_commutes(m.c3r0, m.c1r2);
    lemma_negated_sum(t87, t88.negated());
    lemma_negated_twice(t88);
    let t97 = t89.plus(t93.plus(t90.negated()));
    S::law_plus_associates(t92.negated(), t97, t87.negated().plus(t88));
    S::law_plus_associates(t89, t93.plus(t90.negated()), t87.negated().plus(t88));
    S::law_plus_associates(t93, t90.negated(), t87.negated().plus(t88));
    lemma_swap_terms(t90.negated(), t87.negated(), t88);
    S::law_minus(m.c2r0.times(t32), m.c2r2.times(t83));
    S::law_distributes(m.c2r0, m.c0r2.times(m.c1r3), t34);
    lemma_swap_factors(m.c2r0, m.c0r2, m.c1r3);
    S::law_times_commutes(m.c2r0, m.c1r3);
    lemma_times_negated(m.c2r0, m.c0r3.times(m.c1r2));
    lemma_swap_factors(m.c2r0, m.c0r3, m.c1r2);
    S::law_times_commutes(m.c2r0, m.c1r2);
    S::law_distributes(m.c2r2, m.c0r0.times(m.c1r3), t86);
    lemma_swap_factors(m.c2r2, m.c0r0, m.c1r3);
    S::law_times_commutes(m.c2r2, m.c1r3);
    lemma_times_negated(m.c2r2, m.c0r3.times(m.c1r0));
    lemma_swap_factors(m.c2r2, m.c0r3, m.c1r0);
    S::law_times_commutes(m.c2r2, m.c1r0);
    let t98 = m.c0r0.times(m.c1r3.times(m.c2r2));
    let t99 = m.c0r3.times(m.c1r0.times(m.c2r2));
    lemma_negated_sum(t98, t99.negated());
    lemma_negated_twice(t99);
    let t100 = m.c0r2.times(m.c1r3.times(m.c2r0));
    let t101 = m.c0r3.times(m.c1r2.times(m.c2r0));
    S::law_plus_associates(t100, t101.negated(), t98.negated().plus(t99));
    lemma_swap_terms(t101.negated(), t98.negated(), t99);
    S::law_plus_commutes(t101.negated(), t99);
    lemma_swap_terms(t100, t98.negated(), t99.plus(t101.negated()));
    S::law_distributes(m.c2r3, m.c0r0.times(m.c1r2), t91);
    lemma_swap_factors(m.c2r3, m.c0r0, m.c1r2);
    S::law_times_commutes(m.c2r3, m.c1r2);
    lemma_times_negated(m.c2r3, m.c0r2.times(m.c1r0));
    lemma_swap_factors(m.c2r3, m.c0r2, m.c1r0);
    S::law_times_commutes(m.c2r3, m.c1r0);
    let t102 = t100.plus(t99.plus(t101.negated()));
    let t103 = m.c0r0.times(m.c1r2.times(m.c2r3));
    let t104 = m.c0r2.times(m.c1r0.times(m.c2r3));
    let t105 = t103.plus(t104.negated());
    S::law_plus_associates(t98.negated(), t102, t105);
    S::law_plus_associates(t100, t99.plus(t101.negated()), t105);
    S::law_plus_associates(t99, t101.negated(), t105);
    lemma_swap_terms(t101.negated(), t103, t104.negated());
    S::law_plus_commutes(t101.negated(), t104.negated());
    let t106 = t104.negated().plus(t101.negated());
    lemma_swap_terms(t99, t103, t106);
    lemma_swap_terms(t99, t104.negated(), t101.negated());
    let t107 = t104.negated().plus(t99.plus(t101.negated()));
    lemma_swap_terms(t100, t103, t107);
    lemma_swap_terms(t100, t104.negated(), t99.plus(t101.negated()));
    let t108 = t104.negated().plus(t102);
    lemma_swap_terms(t98.negated(), t103, t108);
    S::law_minus(m.c0r0.times(t57), m.c1r0.times(t28));
    S::law_distributes(m.c0r0, m.c1r2.times(m.c2r3), t15);
    lemma_times_negated(m.c0r0, m.c1r3.times(m.c2r2));
    S::law_distributes(m.c1r0, m.c0r2.times(m.c2r3), t30);
    lemma_swap_factors(m.c1r0, m.c0r2, m.c2r3);
    lemma_times_negated(m.c1r0, m.c0r3.times(m.c2r2));
    lemma_swap_factors(m.c1r0, m.c0r3, m.c2r2);
    lemma_negated_sum(t104, t99.negated());
    lemma_negated_twice(t99);
    S::law_plus_associates(t103, t98.negated(), t104.negated().plus(t99));
    S::law_distributes(m.c2r0, m.c0r2.times(m.c1r3), t34);
    lemma_swap_factors(m.c2r0, m.c0r2, m.c1r3);
    S::law_times_commutes(m.c2r0, m.c1r3);
    lemma_times_negated(m.c2r0, m.c0r3.times(m.c1r2));
    lemma_swap_factors(m.c2r0, m.c0r3, m.c1r2);
    S::law_times_commutes(m.c2r0, m.c1r2);
    let t109 = t98.negated().plus(t104.negated().plus(t99));
    let t110 = t100.plus(t101.negated());
    S::law_plus_associates(t103, t109, t110);
    S::law_plus_associates(t98.negated(), t104.negated().plus(t99), t110);
    S::law_plus_associates(t104.negated(), t99, t110);
    lemma_swap_terms(t99, t100, t101.negated());
    S::law_minus(m.c1r0.times(t1), m.c1r1.times(t61));
    S::law_distributes(m.c1r0, m.c2r1.times(m.c3r3), t3);
    lemma_times_negated(m.c1r0, m.c2r3.times(m.c3r1));
    S::law_distributes(m.c1r1, m.c2r0.times(m.c3r3), t64);
    lemma_times_negated(m.c1r1, m.c2r3.times(m.c3r0));
    let t111 = m.c1r1.times(m.c2r0.times(m.c3r3));
    let t112 = m.c1r1.times(m.c2r3.times(m.c3r0));
    lemma_negated_sum(t111, t112.negated());
    lemma_negated_twice(t112);
    let t113 = m.c1r0.times(m.c2r1.times(m.c3r3));
    let t114 = m.c1r0.times(m.c2r3.times(m.c3r1));
    let t115 = t111.negated().plus(t112);
    S::law_plus_associates(t113, t114.negated(), t115);
    S::law_minus(m.c2r0.times(m.c3r1), m.c3r0.times(m.c2r1));
    S::law_times_commutes(m.c3r0, m.c2r1);
    let t116 = m.c2r1.times(m.c3r0).negated();
    S::law_distributes(m.c1r3, m.c2r0.times(m.c3r1), t116);
    lemma_times_negated(m.c1r3, m.c2r1.times(m.c3r0));
    let t117 = t114.negated().plus(t115);
    let t118 = m.c1r3.times(m.c2r0.times(m.c3r1));
    let t119 = m.c1r3.times(m.c2r1.times(m.c3r0));
    let t120 = t118.plus(t119.negated());
    S::law_plus_associates(t113, t117, t120);
    S::law_plus_associates(t114.negated(), t115, t120);
    S::law_plus_associates(t111.negated(), t112, t120);
    let t121 = m.c2r0.times(m.c3r1).minus(m.c2r1.times(m.c3r0));
    let t122 = m.c1r0.times(m.c3r1).minus(m.c1r1.times(m.c3r0));
    S::law_minus(m.c1r3.times(t121), m.c2r3.times(t122));
    S::law_minus(m.c2r0.times(m.c3r1), m.c2r1.times(m.c3r0));
    S::law_distributes(m.c1r3, m.c2r0.times(m.c3r1), t116);
    lemma_times_negated(m.c1r3, m.c2r1.times(m.c3r0));
    S::law_minus(m.c1r0.times(m.c3r1), m.c1r1.times(m.c3r0));
    let t123 = m.c1r1.times(m.c3r0).negated();
    S::law_distributes(m.c2r3, m.c1r0.times(m.c3r1), t123);
    lemma_swap_factors(m.c2r3, m.c1r0, m.c3r1);
    lemma_times_negated(m.c2r3, m.c1r1.times(m.c3r0));
    lemma_swap_factors(m.c2r3, m.c1r1, m.c3r0);
    lemma_negated_sum(t114, t112.negated());
    lemma_negated_twice(t112);
    let t124 = t114.negated().plus(t112);
    S::law_plus_associates(t118, t119.negated(), t124);
    lemma_swap_terms(t119.negated(), t114.negated(), t112);
    S::law_plus_commutes(t119.negated(), t112);
    let t125 = t112.plus(t119.negated());
    lemma_swap_terms(t118, t114.negated(), t125);
    lemma_swap_terms(t118, t112, t119.negated());
    S::law_minus(m.c1r0.times(m.c2r1), m.c1r1.times(m.c2r0));
    let t126 = m.c1r1.times(m.c2r0).negated();
    S::law_distributes(m.c3r3, m.c1r0.times(m.c2r1), t126);
    lemma_swap_factors(m.c3r3, m.c1r0, m.c2r1);
    S::law_times_commutes(m.c3r3, m.c2r1);
    lemma_times_negated(m.c3r3, m.c1r1.times(m.c2r0));
    lemma_swap_factors(m.c3r3, m.c1r1, m.c2r0);
    S::law_times_commutes(m.c3r3, m.c2r0);
    let t127 = t113.plus(t111.negated());
    S::law_plus_associates(t114.negated(), t112.plus(t120), t127);
    S::law_plus_associates(t112, t120, t127);
    S::law_plus_associates(t118, t119.negated(), t127);
    lemma_swap_terms(t119.negated(), t113, t111.negated());
    S::law_plus_commutes(t119.negated(), t111.negated());
    let t128 = t111.negated().plus(t119.negated());
    lemma_swap_terms(t118, t113, t128);
    lemma_swap_terms(t118, t111.negated(), t119.negated());
    let t129 = t111.negated().plus(t120);
    lemma_swap_terms(t112, t113, t129);
    lemma_swap_terms(t112, t111.negated(), t120);
    let t130 = t111.negated().plus(t112.plus(t120));
    lemma_swap_terms(t114.negated(), t113, t130);
    let t131 = m.c0r1.times(t61).minus(m.c0r0.times(t1));
    let t132 = m.c2r0.times(m.c3r1).minus(m.c3r0.times(m.c2r1));
    S::law_minus(t131, m.c0r3.times(t132));
    S::law_minus(m.c0r1.times(t61), m.c0r0.times(t1));
    S::law_distributes(m.c0r1, m.c2r0.times(m.c3r3), t64);
    lemma_times_negated(m.c0r1, m.c2r3.times(m.c3r0));
    S::law_distributes(m.c0r0, m.c2r1.times(m.c3r3), t3);
    lemma_times_negated(m.c0r0, m.c2r3.times(m.c3r1));
    let t133 = m.c0r0.times(m.c2r1.times(m.c3r3));
    let t134 = m.c0r0.times(m.c2r3.times(m.c3r1));
    lemma_negated_sum(t133, t134.negated());
    lemma_negated_twice(t134);
    let t135 = m.c0r1.times(m.c2r0.times(m.c3r3));
    let t136 = m.c0r1.times(m.c2r3.times(m.c3r0));
    let t137 = t133.negated().plus(t134);
    S::law_plus_associates(t135, t136.negated(), t137);
    lemma_swap_terms(t136.negated(), t133.negated(), t134);
    S::law_plus_commutes(t136.negated(), t134);
    let t138 = t134.plus(t136.negated());
    lemma_swap_terms(t135, t133.negated(), t138);
    lemma_swap_terms(t135, t134, t136.negated());
    S::law_distributes(m.c0r3, m.c2r0.times(m.c3r1), t116);
    lemma_times_negated(m.c0r3, m.c2r1.times(m.c3r0));
    let t139 = m.c0r3.times(m.c2r0.times(m.c3r1));
    let t140 = m.c0r3.times(m.c2r1.times(m.c3r0));
    lemma_negated_sum(t139, t140.negated());
    lemma_negated_twice(t140);
    let t141 = t135.plus(t136.negated());
    let t142 = t139.negated().plus(t140);
    S::law_plus_associates(t133.negated(), t134.plus(t141), t142);
    S::law_plus_associates(t134, t141, t142);
    S::law_plus_associates(t135, t136.negated(), t142);
    let t143 = m.c0r0.times(m.c3r1).minus(m.c0r1.times(m.c3r0));
    let t144 = m.c2r3.times(t143).minus(m.c0r3.times(t121));
    let t145 = m.c0r0.times(m.c2r1).minus(m.c0r1.times(m.c2r0));
    S::law_minus(t144, m.c3r3.times(t145));
    S::law_minus(m.c2r3.times(t143), m.c0r3.times(t121));
    S::law_minus(m.c0r0.times(m.c3r1), m.c0r1.times(m.c3r0));
    let t146 = m.c0r1.times(m.c3r0).negated();
    S::law_distributes(m.c2r3, m.c0r0.times(m.c3r1), t146);
    lemma_swap_factors(m.c2r3, m.c0r0, m.c3r1);
    lemma_times_negated(m.c2r3, m.c0r1.times(m.c3r0));
    lemma_swap_factors(m.c2r3, m.c0r1, m.c3r0);
    S::law_distributes(m.c0r3, m.c2r0.times(m.c3r1), t116);
    lemma_times_negated(m.c0r3, m.c2r1.times(m.c3r0));
    lemma_negated_sum(t139, t140.negated());
    lemma_negated_twice(t140);
    S::law_plus_associates(t134, t136.negated(), t142);
    S::law_minus(m.c0r0.times(m.c2r1), m.c0r1.times(m.c2r0));
    let t147 = m.c0r1.times(m.c2r0).negated();
    S::law_distributes(m.c3r3, m.c0r0.times(m.c2r1), t147);
    lemma_swap_factors(m.c3r3, m.c0r0, m.c2r1);
    S::law_times_commutes(m.c3r3, m.c2r1);
    lemma_times_negated(m.c3r3, m.c0r1.times(m.c2r0));
    lemma_swap_factors(m.c3r3, m.c0r1, m.c2r0);
    S::law_times_commutes(m.c3r3, m.c2r0);
    lemma_negated_sum(t133, t135.negated());
    lemma_negated_twice(t135);
    let t148 = t136.negated().plus(t142);
    let t149 = t133.negated().plus(t135);
    S::law_plus_associates(t134, t148, t149);
    S::law_plus_associates(t136.negated(), t142, t149);
    S::law_plus_associates(t139.negated(), t140, t149);
    lemma_swap_terms(t140, t133.negated(), t135);
    S::law_plus_commutes(t140, t135);
    lemma_swap_terms(t139.negated(), t133.negated(), t135.plus(t140));
    lemma_swap_terms(t139.negated(), t135, t140);
    lemma_swap_terms(t136.negated(), t133.negated(), t135.plus(t142));
    lemma_swap_terms(t136.negated(), t135, t142);
    lemma_swap_terms(t134, t133.negated(), t135.plus(t148));
    S::law_minus(m.c3r0.times(t33), m.c3r1.times(t83));
    S::law_distributes(m.c3r0, m.c0r1.times(m.c1r3), t35);
    lemma_swap_factors(m.c3r0, m.c0r1, m.c1r3);
    S::law_times_commutes(m.c3r0, m.c1r3);
    lemma_times_negated(m.c3r0, m.c0r3.times(m.c1r1));
    lemma_swap_factors(m.c3r0, m.c0r3, m.c1r1);
    S::law_times_commutes(m.c3r0, m.c1r1);
    S::law_distributes(m.c3r1, m.c0r0.times(m.c1r3), t86);
    lemma_swap_factors(m.c3r1, m.c0r0, m.c1r3);
    S::law_times_commutes(m.c3r1, m.c1r3);
    lemma_times_negated(m.c3r1, m.c0r3.times(m.c1r0));
    lemma_swap_factors(m.c3r1, m.c0r3, m.c1r0);
    S::law_times_commutes(m.c3r1, m.c1r0);
    let t150 = m.c0r0.times(m.c1r3.times(m.c3r1));
    let t151 = m.c0r3.times(m.c1r0.times(m.c3r1));
    lemma_negated_sum(t150, t151.negated());
    lemma_negated_twice(t151);
    let t152 = m.c0r1.times(m.c1r3.times(m.c3r0));
    let t153 = m.c0r3.times(m.c1r1.times(m.c3r0));
    let t154 = t150.negated().plus(t151);
    S::law_plus_associates(t152, t153.negated(), t154);
    lemma_swap_terms(t153.negated(), t150.negated(), t151);
    S::law_plus_commutes(t153.negated(), t151);
    let t155 = t151.plus(t153.negated());
    lemma_swap_terms(t152, t150.negated(), t155);
    S::law_minus(m.c0r0.times(m.c1r1), m.c1r0.times(m.c0r1));
    S::law_times_commutes(m.c1r0, m.c0r1);
    let t156 = m.c0r1.times(m.c1r0).negated();
    S::law_distributes(m.c3r3, m.c0r0.times(m.c1r1), t156);
    lemma_swap_factors(m.c3r3, m.c0r0, m.c1r1);
    S::law_times_commutes(m.c3r3, m.c1r1);
    lemma_times_negated(m.c3r3, m.c0r1.times(m.c1r0));
    lemma_swap_factors(m.c3r3, m.c0r1, m.c1r0);
    S::law_times_commutes(m.c3r3, m.c1r0);
    let t157 = m.c0r0.times(m.c1r1.times(m.c3r3));
    let t158 = m.c0r1.times(m.c1r0.times(m.c3r3));
    let t159 = t157.plus(t158.negated());
    S::law_plus_associates(t150.negated(), t152.plus(t155), t159);
    S::law_plus_associates(t152, t155, t159);
    S::law_plus_associates(t151, t153.negated(), t159);
    lemma_swap_terms(t153.negated(), t157, t158.negated());
    S::law_plus_commutes(t153.negated(), t158.negated());
    let t160 = t158.negated().plus(t153.negated());
    lemma_swap_terms(t151, t157, t160);
    lemma_swap_terms(t151, t158.negated(), t153.negated());
    let t161 = t158.negated().plus(t155);
    lemma_swap_terms(t152, t157, t161);
    lemma_swap_terms(t152, t158.negated(), t155);
    let t162 = t158.negated().plus(t152.plus(t155));
    lemma_swap_terms(t150.negated(), t157, t162);
    S::law_minus(m.c0r3.times(t122), m.c1r3.times(t143));
    S::law_distributes(m.c0r3, m.c1r0.times(m.c3r1), t123);
    lemma_times_negated(m.c0r3, m.c1r1.times(m.c3r0));
    S::law_distributes(m.c1r3, m.c0r0.times(m.c3r1), t146);
    lemma_swap_factors(m.c1r3, m.c0r0, m.c3r1);
    lemma_times_negated(m.c1r3, m.c0r1.times(m.c3r0));
    lemma_swap_factors(m.c1r3, m.c0r1, m.c3r0);
    lemma_negated_sum(t150, t152.negated());
    lemma_negated_twice(t152);
    let t163 = t150.negated().plus(t152);
    S::law_plus_associates(t151, t153.negated(), t163);
    lemma_swap_terms(t153.negated(), t150.negated(), t152);
    S::law_plus_commutes(t153.negated(), t152);
    let t164 = t152.plus(t153.negated());
    lemma_swap_terms(t151, t150.negated(), t164);
    lemma_swap_terms(t151, t152, t153.negated());
    S::law_minus(m.c0r0.times(m.c1r1), m.c0r1.times(m.c1r0));
    S::law_distributes(m.c3r3, m.c0r0.times(m.c1r1), t156);
    lemma_swap_factors(m.c3r3, m.c0r0, m.c1r1);
    S::law_times_commutes(m.c3r3, m.c1r1);
    lemma_times_negated(m.c3r3, m.c0r1.times(m.c1r0));
    lemma_swap_factors(m.c3r3, m.c0r1, m.c1r0);
    S::law_times_commutes(m.c3r3, m.c1r0);
    S::law_plus_associates(t150.negated(), t152.plus(t155), t159);
    S::law_plus_associates(t152, t155, t159);
    S::law_plus_associates(t151, t153.negated(), t159);
    lemma_swap_terms(t153.negated(), t157, t158.negated());
    S::law_plus_commutes(t153.negated(), t158.negated());
    lemma_swap_terms(t151, t157, t160);
    lemma_swap_terms(t151, t158.negated(), t153.negated());
    lemma_swap_terms(t152, t157, t161);
    lemma_swap_terms(t152, t158.negated(), t155);
    lemma_swap_terms(t150.negated(), t157, t162);
    let t165 = m.c2r1.times(t83).minus(m.c2r0.times(t33));
    let t166 = m.c0r0.times(m.c1r1).minus(m.c1r0.times(m.c0r1));
    S::law_minus(t165, m.c2r3.times(t166));
    S::law_minus(m.c2r1.times(t83), m.c2r0.times(t33));
    S::law_distributes(m.c2r1, m.c0r0.times(m.c1r3), t86);
    lemma_swap_factors(m.c2r1, m.c0r0, m.c1r3);
    S::law_times_commutes(m.c2r1, m.c1r3);
    lemma_times_negated(m.c2r1, m.c0r3.times(m.c1r0));
    lemma_swap_factors(m.c2r1, m.c0r3, m.c1r0);
    S::law_times_commutes(m.c2r1, m.c1r0);
    S::law_distributes(m.c2r0, m.c0r1.times(m.c1r3), t35);
    lemma_swap_factors(m.c2r0, m.c0r1, m.c1r3);
    S::law_times_commutes(m.c2r0, m.c1r3);
    lemma_times_negated(m.c2r0, m.c0r3.times(m.c1r1));
    lemma_swap_factors(m.c2r0, m.c0r3, m.c1r1);
    S::law_times_commutes(m.c2r0, m.c1r1);
    let t167 = m.c0r1.times(m.c1r3.times(m.c2r0));
    let t168 = m.c0r3.times(m.c1r1.times(m.c2r0));
    lemma_negated_sum(t167, t168.negated());
    lemma_negated_twice(t168);
    let t169 = m.c0r0.times(m.c1r3.times(m.c2r1));
    let t170 = m.c0r3.times(m.c1r0.times(m.c2r1));
    let t171 = t167.negated().plus(t168);
    S::law_plus_associates(t169, t170.negated(), t171);
    lemma_swap_terms(t170.negated(), t167.negated(), t168);
    S::law_distributes(m.c2r3, m.c0r0.times(m.c1r1), t156);
    lemma_swap_factors(m.c2r3, m.c0r0, m.c1r1);
    S::law_times_commutes(m.c2r3, m.c1r1);
    lemma_times_negated(m.c2r3, m.c0r1.times(m.c1r0));
    lemma_swap_factors(m.c2r3, m.c0r1, m.c1r0);
    S::law_times_commutes(m.c2r3, m.c1r0);
    let t172 = m.c0r0.times(m.c1r1.times(m.c2r3));
    let t173 = m.c0r1.times(m.c1r0.times(m.c2r3));
    lemma_negated_sum(t172, t173.negated());
    lemma_negated_twice(t173);
    let t174 = t170.negated().plus(t168);
    let t175 = t167.negated().plus(t174);
    let t176 = t172.negated().plus(t173);
    S::law_plus_associates(t169, t175, t176);
    S::law_plus_associates(t167.negated(), t174, t176);
    S::law_plus_associates(t170.negated(), t168, t176);
    lemma_swap_terms(t168, t172.negated(), t173);
    S::law_plus_commutes(t168, t173);
    lemma_swap_terms(t170.negated(), t172.negated(), t173.plus(t168));
    lemma_swap_terms(t170.negated(), t173, t168);
    lemma_swap_terms(t167.negated(), t172.negated(), t173.plus(t174));
    lemma_swap_terms(t167.negated(), t173, t174);
    lemma_swap_terms(t169, t172.negated(), t173.plus(t175));
    let t177 = m.c1r0.times(m.c2r1).minus(m.c1r1.times(m.c2r0));
    let t178 = m.c1r3.times(t145).minus(m.c0r3.times(t177));
    let t179 = m.c0r0.times(m.c1r1).minus(m.c0r1.times(m.c1r0));
    S::law_minus(t178, m.c2r3.times(t179));
    S::law_minus(m.c1r3.times(t145), m.c0r3.times(t177));
    S::law_distributes(m.c1r3, m.c0r0.times(m.c2r1), t147);
    lemma_swap_factors(m.c1r3, m.c0r0, m.c2r1);
    lemma_times_negated(m.c1r3, m.c0r1.times(m.c2r0));
    lemma_swap_factors(m.c1r3, m.c0r1, m.c2r0);
    S::law_distributes(m.c0r3, m.c1r0.times(m.c2r1), t126);
    lemma_times_negated(m.c0r3, m.c1r1.times(m.c2r0));
    lemma_negated_sum(t170, t168.negated());
    lemma_negated_twice(t168);
    S::law_plus_associates(t169, t167.negated(), t174);
    S::law_distributes(m.c2r3, m.c0r0.times(m.c1r1), t156);
    lemma_swap_factors(m.c2r3, m.c0r0, m.c1r1);
    S::law_times_commutes(m.c2r3, m.c1r1);
    lemma_times_negated(m.c2r3, m.c0r1.times(m.c1r0));
    lemma_swap_factors(m.c2r3, m.c0r1, m.c1r0);
    S::law_times_commutes(m.c2r3, m.c1r0);
    lemma_negated_sum(t172, t173.negated());
    lemma_negated_twice(t173);
    S::law_plus_associates(t169, t175, t176);
    S::law_plus_associates(t167.negated(), t174, t176);
    S::law_plus_associates(t170.negated(), t168, t176);
    lemma_swap_terms(t168, t172.negated(), t173);
    S::law_plus_commutes(t168, t173);
    lemma_swap_terms(t170.negated(), t172.negated(), t173.plus(t168));
    lemma_swap_terms(t170.negated(), t173, t168);
    lemma_swap_terms(t167.negated(), t172.negated(), t173.plus(t174));
    lemma_swap_terms(t167.negated(), t173, t174);
    lemma_swap_terms(t169, t172.negated(), t173.plus(t175));
    let t180 = m.c1r1.times(t63).minus(m.c1r0.times(t18));
    S::law_minus(t180, m.c1r2.times(t132));
    S::law_minus(m.c1r1.times(t63), m.c1r0.times(t18));
    S::law_distributes(m.c1r1, m.c2r0.times(m.c3r2), t69);
    lemma_times_negated(m.c1r1, m.c2r2.times(m.c3r0));
    S::law_distributes(m.c1r0, m.c2r1.times(m.c3r2), t8);
    lemma_times_negated(m.c1r0, m.c2r2.times(m.c3r1));
    let t181 = m.c1r0.times(m.c2r1.times(m.c3r2));
    let t182 = m.c1r0.times(m.c2r2.times(m.c3r1));
    lemma_negated_sum(t181, t182.negated());
    lemma_negated_twice(t182);
    let t183 = m.c1r1.times(m.c2r0.times(m.c3r2));
    let t184 = m.c1r1.times(m.c2r2.times(m.c3r0));
    let t185 = t181.negated().plus(t182);
    S::law_plus_associates(t183, t184.negated(), t185);
    lemma_swap_terms(t184.negated(), t181.negated(), t182);
    S::law_plus_commutes(t184.negated(), t182);
    let t186 = t182.plus(t184.negated());
    lemma_swap_terms(t183, t181.negated(), t186);
    lemma_swap_terms(t183, t182, t184.negated());
    S::law_distributes(m.c1r2, m.c2r0.times(m.c3r1), t116);
    lemma_times_negated(m.c1r2, m.c2r1.times(m.c3r0));
    let t187 = m.c1r2.times(m.c2r0.times(m.c3r1));
    let t188 = m.c1r2.times(m.c2r1.times(m.c3r0));
    lemma_negated_sum(t187, t188.negated());
    lemma_negated_twice(t188);
    let t189 = t183.plus(t184.negated());
    let t190 = t187.negated().plus(t188);
    S::law_plus_associates(t181.negated(), t182.plus(t189), t190);
    S::law_plus_associates(t182, t189, t190);
    S::law_plus_associates(t183, t184.negated(), t190);
    let t191 = m.c2r2.times(t122).minus(m.c1r2.times(t121));
    S::law_minus(t191, m.c3r2.times(t177));
    S::law_minus(m.c2r2.times(t122), m.c1r2.times(t121));
    S::law_distributes(m.c2r2, m.c1r0.times(m.c3r1), t123);
    lemma_swap_factors(m.c2r2, m.c1r0, m.c3r1);
    lemma_times_negated(m.c2r2, m.c1r1.times(m.c3r0));
    lemma_swap_factors(m.c2r2, m.c1r1, m.c3r0);
    S::law_distributes(m.c1r2, m.c2r0.times(m.c3r1), t116);
    lemma_times_negated(m.c1r2, m.c2r1.times(m.c3r0));
    lemma_negated_sum(t187, t188.negated());
    lemma_negated_twice(t188);
    S::law_plus_associates(t182, t184.negated(), t190);
    S::law_distributes(m.c3r2, m.c1r0.times(m.c2r1), t126);
    lemma_swap_factors(m.c3r2, m.c1r0, m.c2r1);
    S::law_times_commutes(m.c3r2, m.c2r1);
    lemma_times_negated(m.c3r2, m.c1r1.times(m.c2r0));
    lemma_swap_factors(m.c3r2, m.c1r1, m.c2r0);
    S::law_times_commutes(m.c3r2, m.c2r0);
    lemma_negated_sum(t181, t183.negated());
    lemma_negated_twice(t183);
    let t192 = t184.negated().plus(t190);
    let t193 = t181.negated().plus(t183);
    S::law_plus_associates(t182, t192, t193);
    S::law_plus_associates(t184.negated(), t190, t193);
    S::law_plus_associates(t187.negated(), t188, t193);
    lemma_swap_terms(t188, t181.negated(), t183);
    S::law_plus_commutes(t188, t183);
    lemma_swap_terms(t187.negated(), t181.negated(), t183.plus(t188));
    lemma_swap_terms(t187.negated(), t183, t188);
    lemma_swap_terms(t184.negated(), t181.negated(), t183.plus(t190));
    lemma_swap_terms(t184.negated(), t183, t190);
    lemma_swap_terms(t182, t181.negated(), t183.plus(t192));
    S::law_minus(m.c0r0.times(t18), m.c0r1.times(t63));
    S::law_distributes(m.c0r0, m.c2r1.times(m.c3r2), t8);
    lemma_times_negated(m.c0r0, m.c2r2.times(m.c3r1));
    S::law_distributes(m.c0r1, m.c2r0.times(m.c3r2), t69);
    lemma_times_negated(m.c0r1, m.c2r2.times(m.c3r0));
    let t194 = m.c0r1.times(m.c2r0.times(m.c3r2));
    let t195 = m.c0r1.times(m.c2r2.times(m.c3r0));
    lemma_negated_sum(t194, t195.negated());
    lemma_negated_twice(t195);
    let t196 = m.c0r0.times(m.c2r1.times(m.c3r2));
    let t197 = m.c0r0.times(m.c2r2.times(m.c3r1));
    let t198 = t194.negated().plus(t195);
    S::law_plus_associates(t196, t197.negated(), t198);
    S::law_distributes(m.c0r2, m.c2r0.times(m.c3r1), t116);
    lemma_times_negated(m.c0r2, m.c2r1.times(m.c3r0));
    let t199 = t197.negated().plus(t198);
    let t200 = m.c0r2.times(m.c2r0.times(m.c3r1));
    let t201 = m.c0r2.times(m.c2r1.times(m.c3r0));
    let t202 = t200.plus(t201.negated());
    S::law_plus_associates(t196, t199, t202);
    S::law_plus_associates(t197.negated(), t198, t202);
    S::law_plus_associates(t194.negated(), t195, t202);
    S::law_minus(m.c0r2.times(t121), m.c2r2.times(t143));
    S::law_distributes(m.c0r2, m.c2r0.times(m.c3r1), t116);
    lemma_times_negated(m.c0r2, m.c2r1.times(m.c3r0));
    S::law_distributes(m.c2r2, m.c0r0.times(m.c3r1), t146);
    lemma_swap_factors(m.c2r2, m.c0r0, m.c3r1);
    lemma_times_negated(m.c2r2, m.c0r1.times(m.c3r0));
    lemma_swap_factors(m.c2r2, m.c0r1, m.c3r0);
    lemma_negated_sum(t197, t195.negated());
    lemma_negated_twice(t195);
    let t203 = t197.negated().plus(t195);
    S::law_plus_associates(t200, t201.negated(), t203);
    lemma_swap_terms(t201.negated(), t197.negated(), t195);
    S::law_plus_commutes(t201.negated(), t195);
    let t204 = t195.plus(t201.negated());
    lemma_swap_terms(t200, t197.negated(), t204);
    lemma_swap_terms(t200, t195, t201.negated());
    S::law_distributes(m.c3r2, m.c0r0.times(m.c2r1), t147);
    lemma_swap_factors(m.c3r2, m.c0r0, m.c2r1);
    S::law_times_commutes(m.c3r2, m.c2r1);
    lemma_times_negated(m.c3r2, m.c0r1.times(m.c2r0));
    lemma_swap_factors(m.c3r2, m.c0r1, m.c2r0);
    S::law_times_commutes(m.c3r2, m.c2r0);
    let t205 = t196.plus(t194.negated());
    S::law_plus_associates(t197.negated(), t195.plus(t202), t205);
    S::law_plus_associates(t195, t202, t205);
    S::law_plus_associates(t200, t201.negated(), t205);
    lemma_swap_terms(t201.negated(), t196, t194.negated());
    S::law_plus_commutes(t201.negated(), t194.negated());
    let t206 = t194.negated().plus(t201.negated());
    lemma_swap_terms(t200, t196, t206);
    lemma_swap_terms(t200, t194.negated(), t201.negated());
    let t207 = t194.negated().plus(t202);
    lemma_swap_terms(t195, t196, t207);
    lemma_swap_terms(t195, t194.negated(), t202);
    let t208 = t194.negated().plus(t195.plus(t202));
    lemma_swap_terms(t197.negated(), t196, t208);
    let t209 = m.c3r1.times(t85).minus(m.c3r0.times(t48));
    S::law_minus(t209, m.c3r2.times(t166));
    S::law_minus(m.c3r1.times(t85), m.c3r0.times(t48));
    S::law_distributes(m.c3r1, m.c0r0.times(m.c1r2), t91);
    lemma_swap_factors(m.c3r1, m.c0r0, m.c1r2);
    S::law_times_commutes(m.c3r1, m.c1r2);
    lemma_times_negated(m.c3r1, m.c0r2.times(m.c1r0));
    lemma_swap_factors(m.c3r1, m.c0r2, m.c1r0);
    S::law_times_commutes(m.c3r1, m.c1r0);
    S::law_distributes(m.c3r0, m.c0r1.times(m.c1r2), t40);
    lemma_swap_factors(m.c3r0, m.c0r1, m.c1r2);
    S::law_times_commutes(m.c3r0, m.c1r2);
    lemma_times_negated(m.c3r0, m.c0r2.times(m.c1r1));
    lemma_swap_factors(m.c3r0, m.c0r2, m.c1r1);
    S::law_times_commutes(m.c3r0, m.c1r1);
    let t210 = m.c0r1.times(m.c1r2.times(m.c3r0));
    let t211 = m.c0r2.times(m.c1r1.times(m.c3r0));
    lemma_negated_sum(t210, t211.negated());
    lemma_negated_twice(t211);
    let t212 = m.c0r0.times(m.c1r2.times(m.c3r1));
    let t213 = m.c0r2.times(m.c1r0.times(m.c3r1));
    let t214 = t210.negated().plus(t211);
    S::law_plus_associates(t212, t213.negated(), t214);
    lemma_swap_terms(t213.negated(), t210.negated(), t211);
    S::law_distributes(m.c3r2, m.c0r0.times(m.c1r1), t156);
    lemma_swap_factors(m.c3r2, m.c0r0, m.c1r1);
    S::law_times_commutes(m.c3r2, m.c1r1);
    lemma_times_negated(m.c3r2, m.c0r1.times(m.c1r0));
    lemma_swap_factors(m.c3r2, m.c0r1, m.c1r0);
    S::law_times_commutes(m.c3r2, m.c1r0);
    let t215 = m.c0r0.times(m.c1r1.times(m.c3r2));
    let t216 = m.c0r1.times(m.c1r0.times(m.c3r2));
    lemma_negated_sum(t215, t216.negated());
    lemma_negated_twice(t216);
    let t217 = t213.negated().plus(t211);
    let t218 = t210.negated().plus(t217);
    let t219 = t215.negated().plus(t216);
    S::law_plus_associates(t212, t218, t219);
    S::law_plus_associates(t210.negated(), t217, t219);
    S::law_plus_associates(t213.negated(), t211, t219);
    lemma_swap_terms(t211, t215.negated(), t216);
    S::law_plus_commutes(t211, t216);
    lemma_swap_terms(t213.negated(), t215.negated(), t216.plus(t211));
    lemma_swap_terms(t213.negated(), t216, t211);
    lemma_swap_terms(t210.negated(), t215.negated(), t216.plus(t217));
    lemma_swap_terms(t210.negated(), t216, t217);
    lemma_swap_terms(t212, t215.negated(), t216.plus(t218));
    let t220 = m.c1r2.times(t143).minus(m.c0r2.times(t122));
    S::law_minus(t220, m.c3r2.times(t179));
    S::law_minus(m.c1r2.times(t143), m.c0r2.times(t122));
    S::law_distributes(m.c1r2, m.c0r0.times(m.c3r1), t146);
    lemma_swap_factors(m.c1r2, m.c0r0, m.c3r1);
    lemma_times_negated(m.c1r2, m.c0r1.times(m.c3r0));
    lemma_swap_factors(m.c1r2, m.c0r1, m.c3r0);
    S::law_distributes(m.c0r2, m.c1r0.times(m.c3r1), t123);
    lemma_times_negated(m.c0r2, m.c1r1.times(m.c3r0));
    lemma_negated_sum(t213, t211.negated());
    lemma_negated_twice(t211);
    S::law_plus_associates(t212, t210.negated(), t217);
    S::law_distributes(m.c3r2, m.c0r0.times(m.c1r1), t156);
    lemma_swap_factors(m.c3r2, m.c0r0, m.c1r1);
    S::law_times_commutes(m.c3r2, m.c1r1);
    lemma_times_negated(m.c3r2, m.c0r1.times(m.c1r0));
    lemma_swap_factors(m.c3r2, m.c0r1, m.c1r0);
    S::law_times_commutes(m.c3r2, m.c1r0);
    lemma_negated_sum(t215, t216.negated());
    lemma_negated_twice(t216);
    S::law_plus_associates(t212, t218, t219);
    S::law_plus_associates(t210.negated(), t217, t219);
    S::law_plus_associates(t213.negated(), t211, t219);
    lemma_swap_terms(t211, t215.negated(), t216);
    S::law_plus_commutes(t211, t216);
    lemma_swap_terms(t213.negated(), t215.negated(), t216.plus(t211));
    lemma_swap_terms(t213.negated(), t216, t211);
    lemma_swap_terms(t210.negated(), t215.negated(), t216.plus(t217));
    lemma_swap_terms(t210.negated(), t216, t217);
    lemma_swap_terms(t212, t215.negated(), t216.plus(t218));
    S::law_minus(m.c2r0.times(t48), m.c2r1.times(t85));
    S::law_distributes(m.c2r0, m.c0r1.times(m.c1r2), t40);
    lemma_swap_factors(m.c2r0, m.c0r1, m.c1r2);
    S::law_times_commutes(m.c2r0, m.c1r2);
    lemma_times_negated(m.c2r0, m.c0r2.times(m.c1r1));
    lemma_swap_factors(m.c2r0, m.c0r2, m.c1r1);
    S::law_times_commutes(m.c2r0, m.c1r1);
    S::law_distributes(m.c2r1, m.c0r0.times(m.c1r2), t91);
    lemma_swap_factors(m.c2r1, m.c0r0, m.c1r2);
    S::law_times_commutes(m.c2r1, m.c1r2);
    lemma_times_negated(m.c2r1, m.c0r2.times(m.c1r0));
    lemma_swap_factors(m.c2r1, m.c0r2, m.c1r0);
    S::law_times_commutes(m.c2r1, m.c1r0);
    let t221 = m.c0r0.times(m.c1r2.times(m.c2r1));
    let t222 = m.c0r2.times(m.c1r0.times(m.c2r1));
    lemma_negated_sum(t221, t222.negated());
    lemma_negated_twice(t222);
    let t223 = m.c0r1.times(m.c1r2.times(m.c2r0));
    let t224 = m.c0r2.times(m.c1r1.times(m.c2r0));
    let t225 = t221.negated().plus(t222);
    S::law_plus_associates(t223, t224.negated(), t225);
    lemma_swap_terms(t224.negated(), t221.negated(), t222);
    S::law_plus_commutes(t224.negated(), t222);
    let t226 = t222.plus(t224.negated());
    lemma_swap_terms(t223, t221.negated(), t226);
    S::law_distributes(m.c2r2, m.c0r0.times(m.c1r1), t156);
    lemma_swap_factors(m.c2r2, m.c0r0, m.c1r1);
    S::law_times_commutes(m.c2r2, m.c1r1);
    lemma_times_negated(m.c2r2, m.c0r1.times(m.c1r0));
    lemma_swap_factors(m.c2r2, m.c0r1, m.c1r0);
    S::law_times_commutes(m.c2r2, m.c1r0);
    let t227 = m.c0r0.times(m.c1r1.times(m.c2r2));
    let t228 = m.c0r1.times(m.c1r0.times(m.c2r2));
    let t229 = t227.plus(t228.negated());
    S::law_plus_associates(t221.negated(), t223.plus(t226), t229);
    S::law_plus_associates(t223, t226, t229);
    S::law_plus_associates(t222, t224.negated(), t229);
    lemma_swap_terms(t224.negated(), t227, t228.negated());
    S::law_plus_commutes(t224.negated(), t228.negated());
    let t230 = t228.negated().plus(t224.negated());
    lemma_swap_terms(t222, t227, t230);
    lemma_swap_terms(t222, t228.negated(), t224.negated());
    let t231 = t228.negated().plus(t226);
    lemma_swap_terms(t223, t227, t231);
    lemma_swap_terms(t223, t228.negated(), t226);
    let t232 = t228.negated().plus(t223.plus(t226));
    lemma_swap_terms(t221.negated(), t227, t232);
    S::law_minus(m.c0r2.times(t177), m.c1r2.times(t145));
    S::law_distributes(m.c0r2, m.c1r0.times(m.c2r1), t126);
    lemma_times_negated(m.c0r2, m.c1r1.times(m.c2r0));
    S::law_distributes(m.c1r2, m.c0r0.times(m.c2r1), t147);
    lemma_swap_factors(m.c1r2, m.c0r0, m.c2r1);
    lemma_times_negated(m.c1r2, m.c0r1.times(m.c2r0));
    lemma_swap_factors(m.c1r2, m.c0r1, m.c2r0);
    lemma_negated_sum(t221, t223.negated());
    lemma_negated_twice(t223);
    let t233 = t221.negated().plus(t223);
    S::law_plus_associates(t222, t224.negated(), t233);
    lemma_swap_terms(t224.negated(), t221.negated(), t223);
    S::law_plus_commutes(t224.negated(), t223);
    let t234 = t223.plus(t224.negated());
    lemma_swap_terms(t222, t221.negated(), t234);
    lemma_swap_terms(t222, t223, t224.negated());
    S::law_distributes(m.c2r2, m.c0r0.times(m.c1r1), t156);
    lemma_swap_factors(m.c2r2, m.c0r0, m.c1r1);
    S::law_times_commutes(m.c2r2, m.c1r1);
    lemma_times_negated(m.c2r2, m.c0r1.times(m.c1r0));
    lemma_swap_factors(m.c2r2, m.c0r1, m.c1r0);
    S::law_times_commutes(m.c2r2, m.c1r0);
    S::law_plus_associates(t221.negated(), t223.plus(t226), t229);
    S::law_plus_associates(t223, t226, t229);
    S::law_plus_associates(t222, t224.negated(), t229);
    lemma_swap_terms(t224.negated(), t227, t228.negated());
    S::law_plus_commutes(t224.negated(), t228.negated());
    lemma_swap_terms(t222, t227, t230);
    lemma_swap_terms(t222, t228.negated(), t224.negated());
    lemma_swap_terms(t223, t227, t231);
    lemma_swap_terms(t223, t228.negated(), t226);
    lemma_swap_terms(t221.negated(), t227, t232);
}

/// The determinant of the transpose is the determinant.
pub proof fn lemma_determinant4_transposes<S: Field>(m: Matrix4x4<S>)
    ensures
        m.transposed().determinant_value() == m.determinant_value(),
{
    let t0 = m.c0r0.times(m.c1r1).minus(m.c1r0.times(m.c0r1));
    let t1 = m.c2r2.times(m.c3r3).minus(m.c3r2.times(m.c2r3));
    let t2 = m.c0r0.times(m.c1r2).minus(m.c1r0.times(m.c0r2));
    let t3 = m.c2r1.times(m.c3r3).minus(m.c3r1.times(m.c2r3));
    let t4 = t0.times(t1).minus(t2.times(t3));
    let t5 = m.c0r0.times(m.c1r3).minus(m.c1r0.times(m.c0r3));
    let t6 = m.c2r1.times(m.c3r2).minus(m.c3r1.times(m.c2r2));
    let t7 = m.c0r1.times(m.c1r2).minus(m.c1r1.times(m.c0r2));
    let t8 = m.c2r0.times(m.c3r3).minus(m.c3r0.times(m.c2r3));
    let t9 = t4.plus(t5.times(t6)).plus(t7.times(t8));
    let t10 = m.c0r1.times(m.c1r3).minus(m.c1r1.times(m.c0r3));
    let t11 = m.c2r0.times(m.c3r2).minus(m.c3r0.times(m.c2r2));
    S::law_minus(t9, t10.times(t11));
    S::law_minus(t0.times(t1), t2.times(t3));
    S::law_minus(m.c0r0.times(m.c1r1), m.c1r0.times(m.c0r1));
    S::law_times_commutes(m.c1r0, m.c0r1);
    S::law_minus(m.c2r2.times(m.c3r3), m.c3r2.times(m.c2r3));
    S::law_times_commutes(m.c3r2, m.c2r3);
    let t12 = m.c0r1.times(m.c1r0).negated();
    let t13 = m.c2r3.times(m.c3r2).negated();
    let t14 = m.c2r2.times(m.c3r3).plus(t13);
    lemma_distributes_right(m.c0r0.times(m.c1r1), t12, t14);
    S::law_distributes(m.c0r0.times(m.c1r1), m.c2r2.times(m.c3r3), t13);
    S::law_times_associates(m.c0r0, m.c1r1, m.c2r2.times(m.c3r3));
    lemma_times_negated(m.c0r0.times(m.c1r1), m.c2r3.times(m.c3r2));
    S::law_times_associates(m.c0r0, m.c1r1, m.c2r3.times(m.c3r2));
    S::law_distributes(t12, m.c2r2.times(m.c3r3), t13);
    lemma_negated_times(m.c0r1.times(m.c1r0), m.c2r2.times(m.c3r3));
    S::law_times_associates(m.c0r1, m.c1r0, m.c2r2.times(m.c3r3));
    lemma_negated_times(m.c0r1.times(m.c1r0), t13);
    lemma_times_negated(m.c0r1.times(m.c1r0), m.c2r3.times(m.c3r2));
    let t15 = m.c0r1.times(m.c1r0).times(m.c2r3.times(m.c3r2));
    lemma_negated_twice(t15);
    S::law_times_associates(m.c0r1, m.c1r0, m.c2r3.times(m.c3r2));
    let t16 = m.c1r1.times(m.c2r2.times(m.c3r3));
    let t17 = m.c1r1.times(m.c2r3.times(m.c3r2));
    let t18 = m.c0r0.times(t17).negated();
    let t19 = m.c1r0.times(m.c2r2.times(m.c3r3));
    let t20 = m.c0r1.times(t19).negated();
    let t21 = m.c1r0.times(m.c2r3.times(m.c3r2));
    let t22 = t20.plus(m.c0r1.times(t21));
    S::law_plus_associates(m.c0r0.times(t16), t18, t22);
    S::law_minus(m.c0r0.times(m.c1r2), m.c1r0.times(m.c0r2));
    S::law_times_commutes(m.c1r0, m.c0r2);
    S::law_minus(m.c2r1.times(m.c3r3), m.c3r1.times(m.c2r3));
    S::law_times_commutes(m.c3r1, m.c2r3);
    let t23 = m.c0r2.times(m.c1r0).negated();
    let t24 = m.c2r3.times(m.c3r1).negated();
    let t25 = m.c2r1.times(m.c3r3).plus(t24);
    lemma_distributes_right(m.c0r0.times(m.c1r2), t23, t25);
    S::law_distributes(m.c0r0.times(m.c1r2), m.c2r1.times(m.c3r3), t24);
    S::law_times_associates(m.c0r0, m.c1r2, m.c2r1.times(m.c3r3));
    lemma_times_negated(m.c0r0.times(m.c1r2), m.c2r3.times(m.c3r1));
    S::law_times_associates(m.c0r0, m.c1r2, m.c2r3.times(m.c3r1));
    S::law_distributes(t23, m.c2r1.times(m.c3r3), t24);
    lemma_negated_times(m.c0r2.times(m.c1r0), m.c2r1.times(m.c3r3));
    S::law_times_associates(m.c0r2, m.c1r0, m.c2r1.times(m.c3r3));
    lemma_negated_times(m.c0r2.times(m.c1r0), t24);
    lemma_times_negated(m.c0r2.times(m.c1r0), m.c2r3.times(m.c3r1));
    let t26 = m.c0r2.times(m.c1r0).times(m.c2r3.times(m.c3r1));
    lemma_negated_twice(t26);
    S::law_times_associates(m.c0r2, m.c1r0, m.c2r3.times(m.c3r1));
    let t27 = m.c1r2.times(m.c2r1.times(m.c3r3));
    let t28 = m.c1r2.times(m.c2r3.times(m.c3r1));
    let t29 = m.c0r0.times(t28).negated();
    let t30 = m.c1r0.times(m.c2r1.times(m.c3r3));
    let t31 = m.c0r2.times(t30).negated();
    let t32 = m.c1r0.times(m.c2r3.times(m.c3r1));
    let t33 = t31.plus(m.c0r2.times(t32));
    S::law_plus_associates(m.c0r0.times(t27), t29, t33);
    lemma_negated_sum(m.c0r0.times(t27), t29.plus(t33));
    lemma_negated_sum(t29, t33);
    lemma_negated_twice(m.c0r0.times(t28));
    lemma_negated_sum(t31, m.c0r2.times(t32));
    lemma_negated_twice(m.c0r2.times(t30));
    let t34 = m.c0r0.times(t27).negated();
    let t35 = m.c0r2.times(t32).negated();
    let t36 = m.c0r2.times(t30).plus(t35);
    let t37 = m.c0r0.times(t28).plus(t36);
    S::law_plus_associates(m.c0r0.times(t16), t18.plus(t22), t34.plus(t37));
    S::law_plus_associates(t18, t22, t34.plus(t37));
    S::law_plus_associates(t20, m.c0r1.times(t21), t34.plus(t37));
    lemma_swap_terms(m.c0r1.times(t21), t34, t37);
    lemma_swap_terms(m.c0r1.times(t21), m.c0r0.times(t28), t36);
    let t38 = m.c0r1.times(t21).plus(t36);
    let t39 = m.c0r0.times(t28).plus(t38);
    lemma_swap_terms(t20, t34, t39);
    lemma_swap_terms(t20, m.c0r0.times(t28), t38);
    S::law_minus(m.c0r0.times(m.c1r3), m.c1r0.times(m.c0r3));
    S::law_times_commutes(m.c1r0, m.c0r3);
    S::law_minus(m.c2r1.times(m.c3r2), m.c3r1.times(m.c2r2));
    S::law_times_commutes(m.c3r1, m.c2r2);
    let t40 = m.c0r3.times(m.c1r0).negated();
    let t41 = m.c2r2.times(m.c3r1).negated();
    let t42 = m.c2r1.times(m.c3r2).plus(t41);
    lemma_distributes_right(m.c0r0.times(m.c1r3), t40, t42);
    S::law_distributes(m.c0r0.times(m.c1r3), m.c2r1.times(m.c3r2), t41);
    S::law_times_associates(m.c0r0, m.c1r3, m.c2r1.times(m.c3r2));
    lemma_times_negated(m.c0r0.times(m.c1r3), m.c2r2.times(m.c3r1));
    S::law_times_associates(m.c0r0, m.c1r3, m.c2r2.times(m.c3r1));
    S::law_distributes(t40, m.c2r1.times(m.c3r2), t41);
    lemma_negated_times(m.c0r3.times(m.c1r0), m.c2r1.times(m.c3r2));
    S::law_times_associates(m.c0r3, m.c1r0, m.c2r1.times(m.c3r2));
    lemma_negated_times(m.c0r3.times(m.c1r0), t41);
    lemma_times_negated(m.c0r3.times(m.c1r0), m.c2r2.times(m.c3r1));
    let t43 = m.c0r3.times(m.c1r0).times(m.c2r2.times(m.c3r1));
    lemma_negated_twice(t43);
    S::law_times_associates(m.c0r3, m.c1r0, m.c2r2.times(m.c3r1));
    let t44 = m.c1r3.times(m.c2r1.times(m.c3r2));
    let t45 = m.c1r3.times(m.c2r2.times(m.c3r1));
    let t46 = m.c0r0.times(t45).negated();
    let t47 = m.c1r0.times(m.c2r1.times(m.c3r2));
    let t48 = m.c0r3.times(t47).negated();
    let t49 = m.c1r0.times(m.c2r2.times(m.c3r1));
    let t50 = t48.plus(m.c0r3.times(t49));
    S::law_plus_associates(m.c0r0.times(t44), t46, t50);
    let t51 = m.c0r0.times(t28).plus(t20.plus(t38));
    let t52 = m.c0r0.times(t44).plus(t46.plus(t50));
    S::law_plus_associates(m.c0r0.times(t16), t18.plus(t34.plus(t51)), t52);
    S::law_plus_associates(t18, t34.plus(t51), t52);
    S::law_plus_associates(t34, t51, t52);
    S::law_plus_associates(m.c0r0.times(t28), t20.plus(t38), t52);
    S::law_plus_associates(t20, t38, t52);
    S::law_plus_associates(m.c0r1.times(t21), t36, t52);
    S::law_plus_associates(m.c0r2.times(t30), t35, t52);
    lemma_swap_terms(t35, m.c0r0.times(t44), t46.plus(t50));
    lemma_swap_terms(t35, t46, t50);
    lemma_swap_terms(m.c0r2.times(t30), m.c0r0.times(t44), t46.plus(t35.plus(t50)));
    lemma_swap_terms(m.c0r2.times(t30), t46, t35.plus(t50));
    let t53 = m.c0r2.times(t30).plus(t35.plus(t50));
    lemma_swap_terms(m.c0r1.times(t21), m.c0r0.times(t44), t46.plus(t53));
    lemma_swap_terms(m.c0r1.times(t21), t46, t53);
    let t54 = m.c0r1.times(t21).plus(t53);
    lemma_swap_terms(t20, m.c0r0.times(t44), t46.plus(t54));
    lemma_swap_terms(t20, t46, t54);
    S::law_minus(m.c0r1.times(m.c1r2), m.c1r1.times(m.c0r2));
    S::law_times_commutes(m.c1r1, m.c0r2);
    S::law_minus(m.c2r0.times(m.c3r3), m.c3r0.times(m.c2r3));
    S::law_times_commutes(m.c3r0, m.c2r3);
    let t55 = m.c0r2.times(m.c1r1).negated();
    let t56 = m.c2r3.times(m.c3r0).negated();
    let t57 = m.c2r0.times(m.c3r3).plus(t56);
    lemma_distributes_right(m.c0r1.times(m.c1r2), t55, t57);
    S::law_distributes(m.c0r1.times(m.c1r2), m.c2r0.times(m.c3r3), t56);
    S::law_times_associates(m.c0r1, m.c1r2, m.c2r0.times(m.c3r3));
    lemma_times_negated(m.c0r1.times(m.c1r2), m.c2r3.times(m.c3r0));
    S::law_times_associates(m.c0r1, m.c1r2, m.c2r3.times(m.c3r0));
    S::law_distributes(t55, m.c2r0.times(m.c3r3), t56);
    lemma_negated_times(m.c0r2.times(m.c1r1), m.c2r0.times(m.c3r3));
    S::law_times_associates(m.c0r2, m.c1r1, m.c2r0.times(m.c3r3));
    lemma_negated_times(m.c0r2.times(m.c1r1), t56);
    lemma_times_negated(m.c0r2.times(m.c1r1), m.c2r3.times(m.c3r0));
    let t58 = m.c0r2.times(m.c1r1).times(m.c2r3.times(m.c3r0));
    lemma_negated_twice(t58);
    S::law_times_associates(m.c0r2, m.c1r1, m.c2r3.times(m.c3r0));
    let t59 = m.c1r2.times(m.c2r0.times(m.c3r3));
    let t60 = m.c1r2.times(m.c2r3.times(m.c3r0));
    let t61 = m.c0r1.times(t60).negated();
    let t62 = m.c1r1.times(m.c2r0.times(m.c3r3));
    let t63 = m.c0r2.times(t62).negated();
    let t64 = m.c1r1.times(m.c2r3.times(m.c3r0));
    let t65 = t63.plus(m.c0r2.times(t64));
    S::law_plus_associates(m.c0r1.times(t59), t61, t65);
    let t66 = m.c0r0.times(t44).plus(t46.plus(t20.plus(t54)));
    let t67 = m.c0r0.times(t28).plus(t66);
    let t68 = m.c0r1.times(t59).plus(t61.plus(t65));
    S::law_plus_associates(m.c0r0.times(t16), t18.plus(t34.plus(t67)), t68);
    S::law_plus_associates(t18, t34.plus(t67), t68);
    S::law_plus_associates(t34, t67, t68);
    S::law_plus_associates(m.c0r0.times(t28), t66, t68);
    S::law_plus_associates(m.c0r0.times(t44), t46.plus(t20.plus(t54)), t68);
    S::law_plus_associates(t46, t20.plus(t54), t68);
    S::law_plus_associates(t20, t54, t68);
    S::law_plus_associates(m.c0r1.times(t21), t53, t68);
    S::law_plus_associates(m.c0r2.times(t30), t35.plus(t50), t68);
    S::law_plus_associates(t35, t50, t68);
    S::law_plus_associates(t48, m.c0r3.times(t49), t68);
    lemma_swap_terms(m.c0r3.times(t49), m.c0r1.times(t59), t61.plus(t65));
    lemma_swap_terms(m.c0r3.times(t49), t61, t65);
    lemma_swap_terms(m.c0r3.times(t49), t63, m.c0r2.times(t64));
    S::law_plus_commutes(m.c0r3.times(t49), m.c0r2.times(t64));
    let t69 = m.c0r2.times(t64).plus(m.c0r3.times(t49));
    lemma_swap_terms(t48, m.c0r1.times(t59), t61.plus(t63.plus(t69)));
    lemma_swap_terms(t48, t61, t63.plus(t69));
    lemma_swap_terms(t48, t63, t69);
    lemma_swap_terms(t48, m.c0r2.times(t64), m.c0r3.times(t49));
    let t70 = m.c0r2.times(t64).plus(t50);
    lemma_swap_terms(t35, m.c0r1.times(t59), t61.plus(t63.plus(t70)));
    lemma_swap_terms(t35, t61, t63.plus(t70));
    let t71 = t61.plus(t35.plus(t63.plus(t70)));
    lemma_swap_terms(m.c0r2.times(t30), m.c0r1.times(t59), t71);
    lemma_swap_terms(m.c0r2.times(t30), t61, t35.plus(t63.plus(t70)));
    S::law_minus(m.c0r1.times(m.c1r3), m.c1r1.times(m.c0r3));
    S::law_times_commutes(m.c1r1, m.c0r3);
    S::law_minus(m.c2r0.times(m.c3r2), m.c3r0.times(m.c2r2));
    S::law_times_commutes(m.c3r0, m.c2r2);
    let t72 = m.c0r3.times(m.c1r1).negated();
    let t73 = m.c2r2.times(m.c3r0).negated();
    let t74 = m.c2r0.times(m.c3r2).plus(t73);
    lemma_distributes_right(m.c0r1.times(m.c1r3), t72, t74);
    S::law_distributes(m.c0r1.times(m.c1r3), m.c2r0.times(m.c3r2), t73);
    S::law_times_associates(m.c0r1, m.c1r3, m.c2r0.times(m.c3r2));
    lemma_times_negated(m.c0r1.times(m.c1r3), m.c2r2.times(m.c3r0));
    S::law_times_associates(m.c0r1, m.c1r3, m.c2r2.times(m.c3r0));
    S::law_distributes(t72, m.c2r0.times(m.c3r2), t73);
    lemma_negated_times(m.c0r3.times(m.c1r1), m.c2r0.times(m.c3r2));
    S::law_times_associates(m.c0r3, m.c1r1, m.c2r0.times(m.c3r2));
    lemma_negated_times(m.c0r3.times(m.c1r1), t73);
    lemma_times_negated(m.c0r3.times(m.c1r1), m.c2r2.times(m.c3r0));
    let t75 = m.c0r3.times(m.c1r1).times(m.c2r2.times(m.c3r0));
    lemma_negated_twice(t75);
    S::law_times_associates(m.c0r3, m.c1r1, m.c2r2.times(m.c3r0));
    let t76 = m.c1r3.times(m.c2r0.times(m.c3r2));
    let t77 = m.c1r3.times(m.c2r2.times(m.c3r0));
    let t78 = m.c0r1.times(t77).negated();
    let t79 = m.c1r1.times(m.c2r0.times(m.c3r2));
    let t80 = m.c0r3.times(t79).negated();
    let t81 = m.c1r1.times(m.c2r2.times(m.c3r0));
    let t82 = t80.plus(m.c0r3.times(t81));
    S::law_plus_associates(m.c0r1.times(t76), t78, t82);
    lemma_negated_sum(m.c0r1.times(t76), t78.plus(t82));
    lemma_negated_sum(t78, t82);
    lemma_negated_twice(m.c0r1.times(t77));
    lemma_negated_sum(t80, m.c0r3.times(t81));
    lemma_negated_twice(m.c0r3.times(t79));
    let t83 = m.c0r2.times(t30).plus(t35.plus(t63.plus(t70)));
    let t84 = m.c0r1.times(t59).plus(t61.plus(t83));
    let t85 = m.c0r1.times(t21).plus(t84);
    let t86 = m.c0r0.times(t44).plus(t46.plus(t20.plus(t85)));
    let t87 = m.c0r0.times(t28).plus(t86);
    let t88 = m.c0r1.times(t76).negated();
    let t89 = m.c0r3.times(t81).negated();
    let t90 = m.c0r3.times(t79).plus(t89);
    let t91 = m.c0r1.times(t77).plus(t90);
    S::law_plus_associates(m.c0r0.times(t16), t18.plus(t34.plus(t87)), t88.plus(t91));
    S::law_plus_associates(t18, t34.plus(t87), t88.plus(t91));
    S::law_plus_associates(t34, t87, t88.plus(t91));
    S::law_plus_associates(m.c0r0.times(t28), t86, t88.plus(t91));
    S::law_plus_associates(m.c0r0.times(t44), t46.plus(t20.plus(t85)), t88.plus(t91));
    S::law_plus_associates(t46, t20.plus(t85), t88.plus(t91));
    S::law_plus_associates(t20, t85, t88.plus(t91));
    S::law_plus_associates(m.c0r1.times(t21), t84, t88.plus(t91));
    S::law_plus_associates(m.c0r1.times(t59), t61.plus(t83), t88.plus(t91));
    S::law_plus_associates(t61, t83, t88.plus(t91));
    S::law_plus_associates(m.c0r2.times(t30), t35.plus(t63.plus(t70)), t88.plus(t91));
    S::law_plus_associates(t35, t63.plus(t70), t88.plus(t91));
    S::law_plus_associates(t63, t70, t88.plus(t91));
    S::law_plus_associates(m.c0r2.times(t64), t50, t88.plus(t91));
    S::law_plus_associates(t48, m.c0r3.times(t49), t88.plus(t91));
    lemma_swap_terms(m.c0r3.times(t49), t88, t91);
    lemma_swap_terms(m.c0r3.times(t49), m.c0r1.times(t77), t90);
    let t92 = m.c0r3.times(t49).plus(t90);
    let t93 = m.c0r1.times(t77).plus(t92);
    lemma_swap_terms(t48, t88, t93);
    lemma_swap_terms(t48, m.c0r1.times(t77), t92);
    let t94 = m.c0r1.times(t77).plus(t48.plus(t92));
    lemma_swap_terms(m.c0r2.times(t64), t88, t94);
    lemma_swap_terms(m.c0r2.times(t64), m.c0r1.times(t77), t48.plus(t92));
    let t95 = m.c0r2.times(t64).plus(t48.plus(t92));
    let t96 = m.c0r1.times(t77).plus(t95);
    lemma_swap_terms(t63, t88, t96);
    lemma_swap_terms(t63, m.c0r1.times(t77), t95);
    let t97 = m.c0r1.times(t77).plus(t63.plus(t95));
    lemma_swap_terms(t35, t88, t97);
    lemma_swap_terms(t35, m.c0r1.times(t77), t63.plus(t95));
    let t98 = m.c0r1.times(t77).plus(t35.plus(t63.plus(t95)));
    lemma_swap_terms(m.c0r2.times(t30), t88, t98);
    lemma_swap_terms(m.c0r2.times(t30), m.c0r1.times(t77), t35.plus(t63.plus(t95)));
    S::law_minus(m.c0r2.times(m.c1r3), m.c1r2.times(m.c0r3));
    S::law_times_commutes(m.c1r2, m.c0r3);
    S::law_minus(m.c2r0.times(m.c3r1), m.c3r0.times(m.c2r1));
    S::law_times_commutes(m.c3r0, m.c2r1);
    let t99 = m.c0r3.times(m.c1r2).negated();
    let t100 = m.c2r1.times(m.c3r0).negated();
    let t101 = m.c2r0.times(m.c3r1).plus(t100);
    lemma_distributes_right(m.c0r2.times(m.c1r3), t99, t101);
    S::law_distributes(m.c0r2.times(m.c1r3), m.c2r0.times(m.c3r1), t100);
    S::law_times_associates(m.c0r2, m.c1r3, m.c2r0.times(m.c3r1));
    lemma_times_negated(m.c0r2.times(m.c1r3), m.c2r1.times(m.c3r0));
    S::law_times_associates(m.c0r2, m.c1r3, m.c2r1.times(m.c3r0));
    S::law_distributes(t99, m.c2r0.times(m.c3r1), t100);
    lemma_negated_times(m.c0r3.times(m.c1r2), m.c2r0.times(m.c3r1));
    S::law_times_associates(m.c0r3, m.c1r2, m.c2r0.times(m.c3r1));
    lemma_negated_times(m.c0r3.times(m.c1r2), t100);
    lemma_times_negated(m.c0r3.times(m.c1r2), m.c2r1.times(m.c3r0));
    let t102 = m.c0r3.times(m.c1r2).times(m.c2r1.times(m.c3r0));
    lemma_negated_twice(t102);
    S::law_times_associates(m.c0r3, m.c1r2, m.c2r1.times(m.c3r0));
    let t103 = m.c1r3.times(m.c2r0.times(m.c3r1));
    let t104 = m.c1r3.times(m.c2r1.times(m.c3r0));
    let t105 = m.c0r2.times(t104).negated();
    let t106 = m.c1r2.times(m.c2r0.times(m.c3r1));
    let t107 = m.c0r3.times(t106).negated();
    let t108 = m.c1r2.times(m.c2r1.times(m.c3r0));
    let t109 = t107.plus(m.c0r3.times(t108));
    S::law_plus_associates(m.c0r2.times(t103), t105, t109);
    let t110 = m.c0r2.times(t30).plus(t35.plus(t63.plus(t95)));
    let t111 = m.c0r1.times(t77).plus(t110);
    let t112 = m.c0r1.times(t59).plus(t61.plus(t88.plus(t111)));
    let t113 = m.c0r1.times(t21).plus(t112);
    let t114 = m.c0r0.times(t44).plus(t46.plus(t20.plus(t113)));
    let t115 = m.c0r0.times(t28).plus(t114);
    let t116 = m.c0r2.times(t103).plus(t105.plus(t109));
    S::law_plus_associates(m.c0r0.times(t16), t18.plus(t34.plus(t115)), t116);
    S::law_plus_associates(t18, t34.plus(t115), t116);
    S::law_plus_associates(t34, t115, t116);
    S::law_plus_associates(m.c0r0.times(t28), t114, t116);
    S::law_plus_associates(m.c0r0.times(t44), t46.plus(t20.plus(t113)), t116);
    S::law_plus_associates(t46, t20.plus(t113), t116);
    S::law_plus_associates(t20, t113, t116);
    S::law_plus_associates(m.c0r1.times(t21), t112, t116);
    S::law_plus_associates(m.c0r1.times(t59), t61.plus(t88.plus(t111)), t116);
    S::law_plus_associates(t61, t88.plus(t111), t116);
    S::law_plus_associates(t88, t111, t116);
    S::law_plus_associates(m.c0r1.times(t77), t110, t116);
    S::law_plus_associates(m.c0r2.times(t30), t35.plus(t63.plus(t95)), t116);
    S::law_plus_associates(t35, t63.plus(t95), t116);
    S::law_plus_associates(t63, t95, t116);
    S::law_plus_associates(m.c0r2.times(t64), t48.plus(t92), t116);
    S::law_plus_associates(t48, t92, t116);
    S::law_plus_associates(m.c0r3.times(t49), t90, t116);
    S::law_plus_associates(m.c0r3.times(t79), t89, t116);
    lemma_swap_terms(t89, m.c0r2.times(t103), t105.plus(t109));
    lemma_swap_terms(t89, t105, t109);
    let t117 = t105.plus(t89.plus(t109));
    lemma_swap_terms(m.c0r3.times(t79), m.c0r2.times(t103), t117);
    lemma_swap_terms(m.c0r3.times(t79), t105, t89.plus(t109));
    let t118 = m.c0r3.times(t79).plus(t89.plus(t109));
    lemma_swap_terms(m.c0r3.times(t49), m.c0r2.times(t103), t105.plus(t118));
    lemma_swap_terms(m.c0r3.times(t49), t105, t118);
    let t119 = m.c0r3.times(t49).plus(t118);
    lemma_swap_terms(t48, m.c0r2.times(t103), t105.plus(t119));
    lemma_swap_terms(t48, t105, t119);
    let t120 = m.c0r0.times(m.c1r1).minus(m.c0r1.times(m.c1r0));
    let t121 = m.c2r2.times(m.c3r3).minus(m.c2r3.times(m.c3r2));
    let t122 = m.c0r0.times(m.c2r1).minus(m.c0r1.times(m.c2r0));
    let t123 = m.c1r2.times(m.c3r3).minus(m.c1r3.times(m.c3r2));
    let t124 = t120.times(t121).minus(t122.times(t123));
    let t125 = m.c0r0.times(m.c3r1).minus(m.c0r1.times(m.c3r0));
    let t126 = m.c1r2.times(m.c2r3).minus(m.c1r3.times(m.c2r2));
    let t127 = t124.plus(t125.times(t126));
    let t128 = m.c1r0.times(m.c2r1).minus(m.c1r1.times(m.c2r0));
    let t129 = m.c0r2.times(m.c3r3).minus(m.c0r3.times(m.c3r2));
    let t130 = t127.plus(t128.times(t129));
    let t131 = m.c1r0.times(m.c3r1).minus(m.c1r1.times(m.c3r0));
    let t132 = m.c0r2.times(m.c2r3).minus(m.c0r3.times(m.c2r2));
    S::law_minus(t130, t131.times(t132));
    S::law_minus(t120.times(t121), t122.times(t123));
    S::law_minus(m.c0r0.times(m.c1r1), m.c0r1.times(m.c1r0));
    S::law_minus(m.c2r2.times(m.c3r3), m.c2r3.times(m.c3r2));
    lemma_distributes_right(m.c0r0.times(m.c1r1), t12, t14);
    S::law_distributes(m.c0r0.times(m.c1r1), m.c2r2.times(m.c3r3), t13);
    S::law_times_associates(m.c0r0, m.c1r1, m.c2r2.times(m.c3r3));
    lemma_times_negated(m.c0r0.times(m.c1r1), m.c2r3.times(m.c3r2));
    S::law_times_associates(m.c0r0, m.c1r1, m.c2r3.times(m.c3r2));
    S::law_distributes(t12, m.c2r2.times(m.c3r3), t13);
    lemma_negated_times(m.c0r1.times(m.c1r0), m.c2r2.times(m.c3r3));
    S::law_times_associates(m.c0r1, m.c1r0, m.c2r2.times(m.c3r3));
    lemma_negated_times(m.c0r1.times(m.c1r0), t13);
    lemma_times_negated(m.c0r1.times(m.c1r0), m.c2r3.times(m.c3r2));
    lemma_negated_twice(t15);
    S::law_times_associates(m.c0r1, m.c1r0, m.c2r3.times(m.c3r2));
    S::law_plus_associates(m.c0r0.times(t16), t18, t22);
    S::law_minus(m.c0r0.times(m.c2r1), m.c0r1.times(m.c2r0));
    S::law_minus(m.c1r2.times(m.c3r3), m.c1r3.times(m.c3r2));
    let t133 = m.c0r1.times(m.c2r0).negated();
    let t134 = m.c1r3.times(m.c3r2).negated();
    let t135 = m.c1r2.times(m.c3r3).plus(t134);
    lemma_distributes_right(m.c0r0.times(m.c2r1), t133, t135);
    S::law_distributes(m.c0r0.times(m.c2r1), m.c1r2.times(m.c3r3), t134);
    S::law_times_associates(m.c0r0, m.c2r1, m.c1r2.times(m.c3r3));
    lemma_swap_factors(m.c2r1, m.c1r2, m.c3r3);
    lemma_times_negated(m.c0r0.times(m.c2r1), m.c1r3.times(m.c3r2));
    S::law_times_associates(m.c0r0, m.c2r1, m.c1r3.times(m.c3r2));
    lemma_swap_factors(m.c2r1, m.c1r3, m.c3r2);
    S::law_distributes(t133, m.c1r2.times(m.c3r3), t134);
    lemma_negated_times(m.c0r1.times(m.c2r0), m.c1r2.times(m.c3r3));
    S::law_times_associates(m.c0r1, m.c2r0, m.c1r2.times(m.c3r3));
    lemma_swap_factors(m.c2r0, m.c1r2, m.c3r3);
    lemma_negated_times(m.c0r1.times(m.c2r0), t134);
    lemma_times_negated(m.c0r1.times(m.c2r0), m.c1r3.times(m.c3r2));
    let t136 = m.c0r1.times(m.c2r0).times(m.c1r3.times(m.c3r2));
    lemma_negated_twice(t136);
    S::law_times_associates(m.c0r1, m.c2r0, m.c1r3.times(m.c3r2));
    lemma_swap_factors(m.c2r0, m.c1r3, m.c3r2);
    let t137 = m.c0r0.times(t44).negated();
    let t138 = m.c0r1.times(t59).negated();
    let t139 = t138.plus(m.c0r1.times(t76));
    S::law_plus_associates(m.c0r0.times(t27), t137, t139);
    lemma_negated_sum(m.c0r0.times(t27), t137.plus(t139));
    lemma_negated_sum(t137, t139);
    lemma_negated_twice(m.c0r0.times(t44));
    lemma_negated_sum(t138, m.c0r1.times(t76));
    lemma_negated_twice(m.c0r1.times(t59));
    let t140 = m.c0r1.times(t59).plus(t88);
    let t141 = m.c0r0.times(t44).plus(t140);
    S::law_plus_associates(m.c0r0.times(t16), t18.plus(t22), t34.plus(t141));
    S::law_plus_associates(t18, t22, t34.plus(t141));
    S::law_plus_associates(t20, m.c0r1.times(t21), t34.plus(t141));
    lemma_swap_terms(m.c0r1.times(t21), t34, t141);
    lemma_swap_terms(m.c0r1.times(t21), m.c0r0.times(t44), t140);
    let t142 = m.c0r1.times(t21).plus(t140);
    let t143 = m.c0r0.times(t44).plus(t142);
    lemma_swap_terms(t20, t34, t143);
    lemma_swap_terms(t20, m.c0r0.times(t44), t142);
    S::law_minus(m.c0r0.times(m.c3r1), m.c0r1.times(m.c3r0));
    S::law_minus(m.c1r2.times(m.c2r3), m.c1r3.times(m.c2r2));
    let t144 = m.c0r1.times(m.c3r0).negated();
    let t145 = m.c1r3.times(m.c2r2).negated();
    let t146 = m.c1r2.times(m.c2r3).plus(t145);
    lemma_distributes_right(m.c0r0.times(m.c3r1), t144, t146);
    S::law_distributes(m.c0r0.times(m.c3r1), m.c1r2.times(m.c2r3), t145);
    S::law_times_associates(m.c0r0, m.c3r1, m.c1r2.times(m.c2r3));
    lemma_swap_factors(m.c3r1, m.c1r2, m.c2r3);
    S::law_times_commutes(m.c3r1, m.c2r3);
    lemma_times_negated(m.c0r0.times(m.c3r1), m.c1r3.times(m.c2r2));
    S::law_times_associates(m.c0r0, m.c3r1, m.c1r3.times(m.c2r2));
    lemma_swap_factors(m.c3r1, m.c1r3, m.c2r2);
    S::law_times_commutes(m.c3r1, m.c2r2);
    S::law_distributes(t144, m.c1r2.times(m.c2r3), t145);
    lemma_negated_times(m.c0r1.times(m.c3r0), m.c1r2.times(m.c2r3));
    S::law_times_associates(m.c0r1, m.c3r0, m.c1r2.times(m.c2r3));
    lemma_swap_factors(m.c3r0, m.c1r2, m.c2r3);
    S::law_times_commutes(m.c3r0, m.c2r3);
    lemma_negated_times(m.c0r1.times(m.c3r0), t145);
    lemma_times_negated(m.c0r1.times(m.c3r0), m.c1r3.times(m.c2r2));
    let t147 = m.c0r1.times(m.c3r0).times(m.c1r3.times(m.c2r2));
    lemma_negated_twice(t147);
    S::law_times_associates(m.c0r1, m.c3r0, m.c1r3.times(m.c2r2));
    lemma_swap_factors(m.c3r0, m.c1r3, m.c2r2);
    S::law_times_commutes(m.c3r0, m.c2r2);
    let t148 = t61.plus(m.c0r1.times(t77));
    S::law_plus_associates(m.c0r0.times(t28), t46, t148);
    let t149 = m.c0r0.times(t44).plus(t20.plus(t142));
    let t150 = m.c0r0.times(t28).plus(t46.plus(t148));
    S::law_plus_associates(m.c0r0.times(t16), t18.plus(t34.plus(t149)), t150);
    S::law_plus_associates(t18, t34.plus(t149), t150);
    S::law_plus_associates(t34, t149, t150);
    S::law_plus_associates(m.c0r0.times(t44), t20.plus(t142), t150);
    S::law_plus_associates(t20, t142, t150);
    S::law_plus_associates(m.c0r1.times(t21), t140, t150);
    S::law_plus_associates(m.c0r1.times(t59), t88, t150);
    lemma_swap_terms(t88, m.c0r0.times(t28), t46.plus(t148));
    lemma_swap_terms(t88, t46, t148);
    lemma_swap_terms(t88, t61, m.c0r1.times(t77));
    let t151 = t88.plus(m.c0r1.times(t77));
    lemma_swap_terms(m.c0r1.times(t59), m.c0r0.times(t28), t46.plus(t61.plus(t151)));
    lemma_swap_terms(m.c0r1.times(t59), t46, t61.plus(t151));
    let t152 = m.c0r1.times(t59).plus(t61.plus(t151));
    lemma_swap_terms(m.c0r1.times(t21), m.c0r0.times(t28), t46.plus(t152));
    lemma_swap_terms(m.c0r1.times(t21), t46, t152);
    let t153 = m.c0r1.times(t21).plus(t152);
    lemma_swap_terms(t20, m.c0r0.times(t28), t46.plus(t153));
    lemma_swap_terms(t20, t46, t153);
    lemma_swap_terms(m.c0r0.times(t44), m.c0r0.times(t28), t46.plus(t20.plus(t153)));
    S::law_minus(m.c1r0.times(m.c2r1), m.c1r1.times(m.c2r0));
    S::law_minus(m.c0r2.times(m.c3r3), m.c0r3.times(m.c3r2));
    let t154 = m.c1r1.times(m.c2r0).negated();
    let t155 = m.c0r3.times(m.c3r2).negated();
    let t156 = m.c0r2.times(m.c3r3).plus(t155);
    lemma_distributes_right(m.c1r0.times(m.c2r1), t154, t156);
    S::law_distributes(m.c1r0.times(m.c2r1), m.c0r2.times(m.c3r3), t155);
    S::law_times_associates(m.c1r0, m.c2r1, m.c0r2.times(m.c3r3));
    lemma_swap_factors(m.c2r1, m.c0r2, m.c3r3);
    lemma_swap_factors(m.c1r0, m.c0r2, m.c2r1.times(m.c3r3));
    lemma_times_negated(m.c1r0.times(m.c2r1), m.c0r3.times(m.c3r2));
    S::law_times_associates(m.c1r0, m.c2r1, m.c0r3.times(m.c3r2));
    lemma_swap_factors(m.c2r1, m.c0r3, m.c3r2);
    lemma_swap_factors(m.c1r0, m.c0r3, m.c2r1.times(m.c3r2));
    S::law_distributes(t154, m.c0r2.times(m.c3r3), t155);
    lemma_negated_times(m.c1r1.times(m.c2r0), m.c0r2.times(m.c3r3));
    S::law_times_associates(m.c1r1, m.c2r0, m.c0r2.times(m.c3r3));
    lemma_swap_factors(m.c2r0, m.c0r2, m.c3r3);
    lemma_swap_factors(m.c1r1, m.c0r2, m.c2r0.times(m.c3r3));
    lemma_negated_times(m.c1r1.times(m.c2r0), t155);
    lemma_times_negated(m.c1r1.times(m.c2r0), m.c0r3.times(m.c3r2));
    let t157 = m.c1r1.times(m.c2r0).times(m.c0r3.times(m.c3r2));
    lemma_negated_twice(t157);
    S::law_times_associates(m.c1r1, m.c2r0, m.c0r3.times(m.c3r2));
    lemma_swap_factors(m.c2r0, m.c0r3, m.c3r2);
    lemma_swap_factors(m.c1r1, m.c0r3, m.c2r0.times(m.c3r2));
    let t158 = t63.plus(m.c0r3.times(t79));
    S::law_plus_associates(m.c0r2.times(t30), t48, t158);
    lemma_swap_terms(t48, t63, m.c0r3.times(t79));
    let t159 = m.c0r0.times(t44).plus(t46.plus(t20.plus(t153)));
    let t160 = m.c0r0.times(t28).plus(t159);
    let t161 = t48.plus(m.c0r3.times(t79));
    let t162 = m.c0r2.times(t30).plus(t63.plus(t161));
    S::law_plus_associates(m.c0r0.times(t16), t18.plus(t34.plus(t160)), t162);
    S::law_plus_associates(t18, t34.plus(t160), t162);
    S::law_plus_associates(t34, t160, t162);
    S::law_plus_associates(m.c0r0.times(t28), t159, t162);
    S::law_plus_associates(m.c0r0.times(t44), t46.plus(t20.plus(t153)), t162);
    S::law_plus_associates(t46, t20.plus(t153), t162);
    S::law_plus_associates(t20, t153, t162);
    S::law_plus_associates(m.c0r1.times(t21), t152, t162);
    S::law_plus_associates(m.c0r1.times(t59), t61.plus(t151), t162);
    S::law_plus_associates(t61, t151, t162);
    S::law_plus_associates(t88, m.c0r1.times(t77), t162);
    S::law_minus(m.c1r0.times(m.c3r1), m.c1r1.times(m.c3r0));
    S::law_minus(m.c0r2.times(m.c2r3), m.c0r3.times(m.c2r2));
    let t163 = m.c1r1.times(m.c3r0).negated();
    let t164 = m.c0r3.times(m.c2r2).negated();
    let t165 = m.c0r2.times(m.c2r3).plus(t164);
    lemma_distributes_right(m.c1r0.times(m.c3r1), t163, t165);
    S::law_distributes(m.c1r0.times(m.c3r1), m.c0r2.times(m.c2r3), t164);
    S::law_times_associates(m.c1r0, m.c3r1, m.c0r2.times(m.c2r3));
    lemma_swap_factors(m.c3r1, m.c0r2, m.c2r3);
    S::law_times_commutes(m.c3r1, m.c2r3);
    lemma_swap_factors(m.c1r0, m.c0r2, m.c2r3.times(m.c3r1));
    lemma_times_negated(m.c1r0.times(m.c3r1), m.c0r3.times(m.c2r2));
    S::law_times_associates(m.c1r0, m.c3r1, m.c0r3.times(m.c2r2));
    lemma_swap_factors(m.c3r1, m.c0r3, m.c2r2);
    S::law_times_commutes(m.c3r1, m.c2r2);
    lemma_swap_factors(m.c1r0, m.c0r3, m.c2r2.times(m.c3r1));
    S::law_distributes(t163, m.c0r2.times(m.c2r3), t164);
    lemma_negated_times(m.c1r1.times(m.c3r0), m.c0r2.times(m.c2r3));
    S::law_times_associates(m.c1r1, m.c3r0, m.c0r2.times(m.c2r3));
    lemma_swap_factors(m.c3r0, m.c0r2, m.c2r3);
    S::law_times_commutes(m.c3r0, m.c2r3);
    lemma_swap_factors(m.c1r1, m.c0r2, m.c2r3.times(m.c3r0));
    lemma_negated_times(m.c1r1.times(m.c3r0), t164);
    lemma_times_negated(m.c1r1.times(m.c3r0), m.c0r3.times(m.c2r2));
    let t166 = m.c1r1.times(m.c3r0).times(m.c0r3.times(m.c2r2));
    lemma_negated_twice(t166);
    S::law_times_associates(m.c1r1, m.c3r0, m.c0r3.times(m.c2r2));
    lemma_swap_factors(m.c3r0, m.c0r3, m.c2r2);
    S::law_times_commutes(m.c3r0, m.c2r2);
    lemma_swap_factors(m.c1r1, m.c0r3, m.c2r2.times(m.c3r0));
    let t167 = m.c0r3.times(t49).negated();
    let t168 = m.c0r2.times(t64).negated();
    let t169 = t168.plus(m.c0r3.times(t81));
    S::law_plus_associates(m.c0r2.times(t32), t167, t169);
    lemma_swap_terms(t167, t168, m.c0r3.times(t81));
    let t170 = t167.plus(m.c0r3.times(t81));
    lemma_negated_sum(m.c0r2.times(t32), t168.plus(t170));
    lemma_negated_sum(t168, t170);
    lemma_negated_twice(m.c0r2.times(t64));
    lemma_negated_sum(t167, m.c0r3.times(t81));
    lemma_negated_twice(m.c0r3.times(t49));
    let t171 = m.c0r1.times(t77).plus(t162);
    let t172 = m.c0r1.times(t59).plus(t61.plus(t88.plus(t171)));
    let t173 = m.c0r1.times(t21).plus(t172);
    let t174 = m.c0r0.times(t44).plus(t46.plus(t20.plus(t173)));
    let t175 = m.c0r0.times(t28).plus(t174);
    let t176 = m.c0r3.times(t49).plus(t89);
    let t177 = m.c0r2.times(t64).plus(t176);
    S::law_plus_associates(m.c0r0.times(t16), t18.plus(t34.plus(t175)), t35.plus(t177));
    S::law_plus_associates(t18, t34.plus(t175), t35.plus(t177));
    S::law_plus_associates(t34, t175, t35.plus(t177));
    S::law_plus_associates(m.c0r0.times(t28), t174, t35.plus(t177));
    S::law_plus_associates(m.c0r0.times(t44), t46.plus(t20.plus(t173)), t35.plus(t177));
    S::law_plus_associates(t46, t20.plus(t173), t35.plus(t177));
    S::law_plus_associates(t20, t173, t35.plus(t177));
    S::law_plus_associates(m.c0r1.times(t21), t172, t35.plus(t177));
    S::law_plus_associates(m.c0r1.times(t59), t61.plus(t88.plus(t171)), t35.plus(t177));
    S::law_plus_associates(t61, t88.plus(t171), t35.plus(t177));
    S::law_plus_associates(t88, t171, t35.plus(t177));
    S::law_plus_associates(m.c0r1.times(t77), t162, t35.plus(t177));
    S::law_plus_associates(m.c0r2.times(t30), t63.plus(t161), t35.plus(t177));
    S::law_plus_associates(t63, t161, t35.plus(t177));
    S::law_plus_associates(t48, m.c0r3.times(t79), t35.plus(t177));
    lemma_swap_terms(m.c0r3.times(t79), t35, t177);
    lemma_swap_terms(m.c0r3.times(t79), m.c0r2.times(t64), t176);
    lemma_swap_terms(m.c0r3.times(t79), m.c0r3.times(t49), t89);
    let t178 = m.c0r2.times(t64).plus(t92);
    lemma_swap_terms(t48, t35, t178);
    lemma_swap_terms(t48, m.c0r2.times(t64), t92);
    lemma_swap_terms(t63, t35, t95);
    S::law_minus(m.c2r0.times(m.c3r1), m.c2r1.times(m.c3r0));
    S::law_minus(m.c0r2.times(m.c1r3), m.c0r3.times(m.c1r2));
    let t179 = m.c0r2.times(m.c1r3).plus(t99);
    lemma_distributes_right(m.c2r0.times(m.c3r1), t100, t179);
    S::law_distributes(m.c2r0.times(m.c3r1), m.c0r2.times(m.c1r3), t99);
    S::law_times_associates(m.c2r0, m.c3r1, m.c0r2.times(m.c1r3));
    lemma_swap_factors(m.c3r1, m.c0r2, m.c1r3);
    S::law_times_commutes(m.c3r1, m.c1r3);
    lemma_swap_factors(m.c2r0, m.c0r2, m.c1r3.times(m.c3r1));
    lemma_swap_factors(m.c2r0, m.c1r3, m.c3r1);
    lemma_times_negated(m.c2r0.times(m.c3r1), m.c0r3.times(m.c1r2));
    S::law_times_associates(m.c2r0, m.c3r1, m.c0r3.times(m.c1r2));
    lemma_swap_factors(m.c3r1, m.c0r3, m.c1r2);
    S::law_times_commutes(m.c3r1, m.c1r2);
    lemma_swap_factors(m.c2r0, m.c0r3, m.c1r2.times(m.c3r1));
    lemma_swap_factors(m.c2r0, m.c1r2, m.c3r1);
    S::law_distributes(t100, m.c0r2.times(m.c1r3), t99);
    lemma_negated_times(m.c2r1.times(m.c3r0), m.c0r2.times(m.c1r3));
    S::law_times_associates(m.c2r1, m.c3r0, m.c0r2.times(m.c1r3));
    lemma_swap_factors(m.c3r0, m.c0r2, m.c1r3);
    S::law_times_commutes(m.c3r0, m.c1r3);
    lemma_swap_factors(m.c2r1, m.c0r2, m.c1r3.times(m.c3r0));
    lemma_swap_factors(m.c2r1, m.c1r3, m.c3r0);
    lemma_negated_times(m.c2r1.times(m.c3r0), t99);
    lemma_times_negated(m.c2r1.times(m.c3r0), m.c0r3.times(m.c1r2));
    let t180 = m.c2r1.times(m.c3r0).times(m.c0r3.times(m.c1r2));
    lemma_negated_twice(t180);
    S::law_times_associates(m.c2r1, m.c3r0, m.c0r3.times(m.c1r2));
    lemma_swap_factors(m.c3r0, m.c0r3, m.c1r2);
    S::law_times_commutes(m.c3r0, m.c1r2);
    lemma_swap_factors(m.c2r1, m.c0r3, m.c1r2.times(m.c3r0));
    lemma_swap_factors(m.c2r1, m.c1r2, m.c3r0);
    let t181 = t105.plus(m.c0r3.times(t108));
    S::law_plus_associates(m.c0r2.times(t103), t107, t181);
    lemma_swap_terms(t107, t105, m.c0r3.times(t108));
    S::law_plus_associates(m.c0r0.times(t16), t18.plus(t34.plus(t115)), t116);
    S::law_plus_associates(t18, t34.plus(t115), t116);
    S::law_plus_associates(t34, t115, t116);
    S::law_plus_associates(m.c0r0.times(t28), t114, t116);
    S::law_plus_associates(m.c0r0.times(t44), t46.plus(t20.plus(t113)), t116);
    S::law_plus_associates(t46, t20.plus(t113), t116);
    S::law_plus_associates(t20, t113, t116);
    S::law_plus_associates(m.c0r1.times(t21), t112, t116);
    S::law_plus_associates(m.c0r1.times(t59), t61.plus(t88.plus(t111)), t116);
    S::law_plus_associates(t61, t88.plus(t111), t116);
    S::law_plus_associates(t88, t111, t116);
    S::law_plus_associates(m.c0r1.times(t77), t110, t116);
    S::law_plus_associates(m.c0r2.times(t30), t35.plus(t63.plus(t95)), t116);
    S::law_plus_associates(t35, t63.plus(t95), t116);
    S::law_plus_associates(t63, t95, t116);
    S::law_plus_associates(m.c0r2.times(t64), t48.plus(t92), t116);
    S::law_plus_associates(t48, t92, t116);
    S::law_plus_associates(m.c0r3.times(t49), t90, t116);
    S::law_plus_associates(m.c0r3.times(t79), t89, t116);
    lemma_swap_terms(t89, m.c0r2.times(t103), t105.plus(t109));
    lemma_swap_terms(t89, t105, t109);
    lemma_swap_terms(m.c0r3.times(t79), m.c0r2.times(t103), t117);
    lemma_swap_terms(m.c0r3.times(t79), t105, t89.plus(t109));
    lemma_swap_terms(m.c0r3.times(t49), m.c0r2.times(t103), t105.plus(t118));
    lemma_swap_terms(m.c0r3.times(t49), t105, t118);
    lemma_swap_terms(t48, m.c0r2.times(t103), t105.plus(t119));
    lemma_swap_terms(t48, t105, t119);
}

/// The minors of a vector taken twice are zero.
proof fn lemma_minors_of_one_vector<S: Field>(u: Vector4<S>)
    ensures
        ({
            let zero = S::zero_value();
            minors(u, u) == (zero, zero, zero, zero, zero, zero)
        }),
{
    lemma_minus_self(u.x.times(u.y));
    lemma_minus_self(u.x.times(u.z));
    lemma_minus_self(u.x.times(u.w));
    lemma_minus_self(u.y.times(u.z));
    lemma_minus_self(u.y.times(u.w));
    lemma_minus_self(u.z.times(u.w));
}

/// A Laplace expansion in which the minors of one pair of rows are all zero
/// is zero.
proof fn lemma_wedge_of_zeros<S: Field>(c: (S, S, S, S, S, S))
    ensures
        ({
            let zero = S::zero_value();
            &&& wedge((zero, zero, zero, zero, zero, zero), c) == zero
            &&& wedge(c, (zero, zero, zero, zero, zero, zero)) == zero
        }),
{
    let zero = S::zero_value();
    lemma_zero_times(c.0);
    lemma_zero_times(c.1);
    lemma_zero_times(c.2);
    lemma_zero_times(c.3);
    lemma_zero_times(c.4);
    lemma_zero_times(c.5);
    lemma_times_zero(c.0);
    lemma_times_zero(c.1);
    lemma_times_zero(c.2);
    lemma_times_zero(c.3);
    lemma_times_zero(c.4);
    lemma_times_zero(c.5);
    lemma_minus_self(zero);
    S::law_plus_zero(zero);
}

/// A matrix times its adjugate is the determinant times the identity.
pub proof fn lemma_times4_adjugate<S: Field>(m: Matrix4x4<S>)
    ensures
        m.times(m.adjugate()) == Matrix4x4::scalar_value(m.determinant_value()),
{
    lemma_adjugate4_column0(m.row0(), m);
    lemma_adjugate4_column0(m.row1(), m);
    lemma_adjugate4_column0(m.row2(), m);
    lemma_adjugate4_column0(m.row3(), m);
    lemma_adjugate4_column1(m.row0(), m);
    lemma_adjugate4_column1(m.row1(), m);
    lemma_adjugate4_column1(m.row2(), m);
    lemma_adjugate4_column1(m.row3(), m);
    lemma_adjugate4_column2(m.row0(), m);
    lemma_adjugate4_column2(m.row1(), m);
    lemma_adjugate4_column2(m.row2(), m);
    lemma_adjugate4_column2(m.row3(), m);
    lemma_adjugate4_column3(m.row0(), m);
    lemma_adjugate4_column3(m.row1(), m);
    lemma_adjugate4_column3(m.row2(), m);
    lemma_adjugate4_column3(m.row3(), m);
    lemma_wedge_repeats_first(m.row2(), m.row1(), m.row3());
    lemma_wedge_repeats_outer(m.row3(), m.row1(), m.row2());
    lemma_wedge_repeats_inner(m.row0(), m.row2(), m.row3());
    lemma_wedge_repeats_last(m.row0(), m.row3(), m.row2());
    lemma_wedge_repeats_first(m.row0(), m.row1(), m.row3());
    lemma_wedge_repeats_inner(m.row0(), m.row1(), m.row3());
    lemma_wedge_repeats_outer(m.row0(), m.row1(), m.row2());
    lemma_wedge_repeats_last(m.row0(), m.row1(), m.row2());
    lemma_minors_of_one_vector(m.row0());
    lemma_minors_of_one_vector(m.row1());
    lemma_minors_of_one_vector(m.row2());
    lemma_minors_of_one_vector(m.row3());
    lemma_wedge_of_zeros(m.upper_minors());
    lemma_wedge_of_zeros(m.lower_minors());
}

/// The transpose of a product is the product of the transposes in reverse.
pub proof fn lemma_transposed4_times<S: Field>(a: Matrix4x4<S>, b: Matrix4x4<S>)
    ensures
        a.times(b).transposed() == b.transposed().times(a.transposed()),
{
    lemma_dot4_commutes(a.row0(), b.col0());
    lemma_dot4_commutes(a.row0(), b.col1());
    lemma_dot4_commutes(a.row0(), b.col2());
    lemma_dot4_commutes(a.row0(), b.col3());
    lemma_dot4_commutes(a.row1(), b.col0());
    lemma_dot4_commutes(a.row1(), b.col1());
    lemma_dot4_commutes(a.row1(), b.col2());
    lemma_dot4_commutes(a.row1(), b.col3());
    lemma_dot4_commutes(a.row2(), b.col0());
    lemma_dot4_commutes(a.row2(), b.col1());
    lemma_dot4_commutes(a.row2(), b.col2());
    lemma_dot4_commutes(a.row2(), b.col3());
    lemma_dot4_commutes(a.row3(), b.col0());
    lemma_dot4_commutes(a.row3(), b.col1());
    lemma_dot4_commutes(a.row3(), b.col2());
    lemma_dot4_commutes(a.row3(), b.col3());
}

/// The dot product is symmetric.
pub proof fn lemma_dot4_commutes<S: Field>(a: Vector4<S>, b: Vector4<S>)
    ensures
        a.dot_product(b) == b.dot_product(a),
{
    S::law_times_commutes(a.x, b.x);
    S::law_times_commutes(a.y, b.y);
    S::law_times_commutes(a.z, b.z);
    S::law_times_commutes(a.w, b.w);
}

/// The adjugate times its matrix is the determinant times the identity.
pub proof fn lemma_adjugate4_times<S: Field>(m: Matrix4x4<S>)
    ensures
        m.adjugate().times(m) == Matrix4x4::scalar_value(m.determinant_value()),
{
    let t = m.transposed();
    lemma_times4_adjugate(t);
    lemma_transposed4_times(t, t.adjugate());
    lemma_adjugate4_transposes(m);
    lemma_determinant4_transposes(m);
}

/// A common factor of the coordinates of either vector of a dot product can
/// be taken out.
proof fn lemma_dot4_factor<S: Field>(u: Vector4<S>, v: Vector4<S>, k: S)
    ensures
        u.dot_product(
            Vector4 { x: k.times(v.x), y: k.times(v.y), z: k.times(v.z), w: k.times(v.w) },
        ) == k.times(u.dot_product(v)),
        (Vector4 { x: k.times(u.x), y: k.times(u.y), z: k.times(u.z), w: k.times(u.w) }).dot_product(
            v,
        ) == k.times(u.dot_product(v)),
{
    lemma_swap_factors(u.x, k, v.x);
    lemma_swap_factors(u.y, k, v.y);
    lemma_swap_factors(u.z, k, v.z);
    lemma_swap_factors(u.w, k, v.w);
    S::law_times_associates(k, u.x, v.x);
    S::law_times_associates(k, u.y, v.y);
    S::law_times_associates(k, u.z, v.z);
    S::law_times_associates(k, u.w, v.w);
    let (p, q, r, s) = (u.x.times(v.x), u.y.times(v.y), u.z.times(v.z), u.w.times(v.w));
    S::law_distributes(k, p, q);
    S::law_distributes(k, p.plus(q), r);
    S::law_distributes(k, p.plus(q).plus(r), s);
}

/// The inverse by Cramer's rule is an inverse on both sides.
pub proof fn lemma_inverse4_is_inverse<S: Field>(m: Matrix4x4<S>)
    requires
        !m.determinant_value().vanishes(),
    ensures
        m.inverse_value() is Some,
        m.inverse_value().unwrap().times(m) == Matrix4x4::<S>::identity_value(),
        m.times(m.inverse_value().unwrap()) == Matrix4x4::<S>::identity_value(),
{
    let d = m.determinant_value();
    let k = S::one_value().over(d);
    let a = m.adjugate();
    S::law_over(S::one_value(), d);
    S::law_times_commutes(d, k);
    lemma_times_zero(k);
    lemma_times4_adjugate(m);
    lemma_adjugate4_times(m);
    lemma_dot4_factor(m.row0(), a.col0(), k);
    lemma_dot4_factor(a.row0(), m.col0(), k);
    lemma_dot4_factor(m.row0(), a.col1(), k);
    lemma_dot4_factor(a.row0(), m.col1(), k);
    lemma_dot4_factor(m.row0(), a.col2(), k);
    lemma_dot4_factor(a.row0(), m.col2(), k);
    lemma_dot4_factor(m.row0(), a.col3(), k);
    lemma_dot4_factor(a.row0(), m.col3(), k);
    lemma_dot4_factor(m.row1(), a.col0(), k);
    lemma_dot4_factor(a.row1(), m.col0(), k);
    lemma_dot4_factor(m.row1(), a.col1(), k);
    lemma_dot4_factor(a.row1(), m.col1(), k);
    lemma_dot4_factor(m.row1(), a.col2(), k);
    lemma_dot4_factor(a.row1(), m.col2(), k);
    lemma_dot4_factor(m.row1(), a.col3(), k);
    lemma_dot4_factor(a.row1(), m.col3(), k);
    lemma_dot4_factor(m.row2(), a.col0(), k);
    lemma_dot4_factor(a.row2(), m.col0(), k);
    lemma_dot4_factor(m.row2(), a.col1(), k);
    lemma_dot4_factor(a.row2(), m.col1(), k);
    lemma_dot4_factor(m.row2(), a.col2(), k);
    lemma_dot4_factor(a.row2(), m.col2(), k);
    lemma_dot4_factor(m.row2(), a.col3(), k);
    lemma_dot4_factor(a.row2(), m.col3(), k);
    lemma_dot4_factor(m.row3(), a.col0(), k);
    lemma_dot4_factor(a.row3(), m.col0(), k);
    lemma_dot4_factor(m.row3(), a.col1(), k);
    lemma_dot4_factor(a.row3(), m.col1(), k);
    lemma_dot4_factor(m.row3(), a.col2(), k);
    lemma_dot4_factor(a.row3(), m.col2(), k);
    lemma_dot4_factor(m.row3(), a.col3(), k);
    lemma_dot4_factor(a.row3(), m.col3(), k);
}

} // verus!
