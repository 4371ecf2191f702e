//! Complex numbers over a scalar.

use crate::algebra::{
    lemma_cancel_factor, lemma_cancels_front, lemma_distributes_right, lemma_negated_plus,
    lemma_negated_sum, lemma_negated_times, lemma_negated_twice, lemma_swap_terms,
    lemma_times_negated, lemma_zero_times,
};
use crate::angle::Radians;
use crate::determinant::{lemma_swap_factors, lemma_times_minus};
use crate::scalar::{Field, Scalar, ScalarFloat, ScalarSigned};
use vstd::prelude::*;

verus! {

/// A complex number `re + i im`.
#[derive(Clone, Copy, Debug, PartialEq, Eq, Hash)]
pub struct Complex<S> {
    pub re: S,
    pub im: S,
}

impl<S> Complex<S> {
    /// Builds a complex number from its real and imaginary parts.
    pub fn new(re: S, im: S) -> (r: Self)
        ensures
            r.re == re,
            r.im == im,
    {
        Complex { re, im }
    }

    /// The shape of the number as a column of two entries: rows first,
    /// columns second.
    pub fn shape(&self) -> (r: (usize, usize))
        ensures
            r == (2usize, 1usize),
    {
        (2, 1)
    }
}

impl<S: Scalar> Complex<S> {
    /// The sum: parts add separately.
    pub open spec fn plus(self, other: Self) -> Self {
        Complex { re: self.re.plus(other.re), im: self.im.plus(other.im) }
    }

    /// The difference: parts subtract separately.
    pub open spec fn minus(self, other: Self) -> Self {
        Complex { re: self.re.minus(other.re), im: self.im.minus(other.im) }
    }

    /// The product `(a + i b)(c + i d) = (ac - bd) + i (ad + bc)`.
    pub open spec fn times(self, other: Self) -> Self {
        Complex {
            re: self.re.times(other.re).minus(self.im.times(other.im)),
            im: self.re.times(other.im).plus(self.im.times(other.re)),
        }
    }

    /// The square of the absolute value, `re^2 + im^2`.
    pub open spec fn norm_squared(self) -> S {
        self.re.times(self.re).plus(self.im.times(self.im))
    }

    /// Both parts multiplied by `s` on the right.
    pub open spec fn scaled(self, s: S) -> Self {
        Complex { re: self.re.times(s), im: self.im.times(s) }
    }

    /// Both parts multiplied by the reciprocal of `s`.
    pub open spec fn unscaled(self, s: S) -> Self {
        self.scaled(S::one_value().over(s))
    }

    /// The imaginary unit.
    pub fn i() -> (r: Self)
        ensures
            r == (Complex { re: S::zero_value(), im: S::one_value() }),
    {
        Complex { re: S::zero(), im: S::one() }
    }

    /// The real number `value` as a complex number.
    pub fn from_real(value: S) -> (r: Self)
        ensures
            r == (Complex { re: value, im: S::zero_value() }),
    {
        Complex { re: value, im: S::zero() }
    }

    /// The purely imaginary number `i value`.
    pub fn from_imaginary(value: S) -> (r: Self)
        ensures
            r == (Complex { re: S::zero_value(), im: value }),
    {
        Complex { re: S::zero(), im: value }
    }

    pub fn zero() -> (r: Self)
        ensures
            r == (Complex { re: S::zero_value(), im: S::zero_value() }),
    {
        Complex { re: S::zero(), im: S::zero() }
    }

    /// The multiplicative identity, the real number one.
    pub fn identity() -> (r: Self)
        ensures
            r == (Complex { re: S::one_value(), im: S::zero_value() }),
    {
        Complex { re: S::one(), im: S::zero() }
    }

    pub fn magnitude_squared(self) -> (r: S)
        ensures
            r == self.norm_squared(),
    {
        self.re.mul(self.re).add(self.im.mul(self.im))
    }

    /// Multiplies both parts by `scale`.
    pub fn scale(self, scale: S) -> (r: Self)
        ensures
            r == self.scaled(scale),
    {
        Complex { re: self.re.mul(scale), im: self.im.mul(scale) }
    }

    /// Divides both parts by `scale`, by way of its reciprocal.
    pub fn unscale(self, scale: S) -> (r: Self)
        ensures
            r == self.unscaled(scale),
    {
        let one_over_scale = S::one().div(scale);
        Complex { re: self.re.mul(one_over_scale), im: self.im.mul(one_over_scale) }
    }

    pub fn add(self, other: Self) -> (r: Self)
        ensures
            r == self.plus(other),
    {
        Complex { re: self.re.add(other.re), im: self.im.add(other.im) }
    }

    pub fn sub(self, other: Self) -> (r: Self)
        ensures
            r == self.minus(other),
    {
        Complex { re: self.re.sub(other.re), im: self.im.sub(other.im) }
    }

    pub fn mul(self, other: Self) -> (r: Self)
        ensures
            r == self.times(other),
    {
        Complex {
            re: self.re.mul(other.re).sub(self.im.mul(other.im)),
            im: self.re.mul(other.im).add(self.im.mul(other.re)),
        }
    }

    /// Adds a real number: only the real part changes.
    pub fn add_real(self, other: S) -> (r: Self)
        ensures
            r == (Complex { re: self.re.plus(other), im: self.im }),
    {
        Complex { re: self.re.add(other), im: self.im }
    }

    /// Subtracts a real number: only the real part changes.
    pub fn sub_real(self, other: S) -> (r: Self)
        ensures
            r == (Complex { re: self.re.minus(other), im: self.im }),
    {
        Complex { re: self.re.sub(other), im: self.im }
    }
}

impl<S: ScalarSigned> Complex<S> {
    /// The complex conjugate `re - i im`.
    pub open spec fn conjugated(self) -> Self {
        Complex { re: self.re, im: self.im.negated() }
    }

    /// The reciprocal: the conjugate divided by the squared absolute value.
    pub open spec fn inverted(self) -> Self {
        Complex {
            re: self.re.over(self.norm_squared()),
            im: self.im.negated().over(self.norm_squared()),
        }
    }

    pub fn conjugate(self) -> (r: Self)
        ensures
            r == self.conjugated(),
    {
        Complex { re: self.re, im: self.im.neg() }
    }

    /// The reciprocal. Zero has none: for it the parts are whatever the
    /// scalar's division by zero gives.
    pub fn inverse(self) -> (r: Self)
        ensures
            r == self.inverted(),
    {
        let magnitude_squared = self.magnitude_squared();
        Complex {
            re: self.re.div(magnitude_squared),
            im: self.im.neg().div(magnitude_squared),
        }
    }
}

impl<S: ScalarFloat> Complex<S> {
    /// The absolute value.
    pub open spec fn norm(self) -> S {
        self.norm_squared().root()
    }

    /// The argument: the angle of the number against the positive real axis.
    pub open spec fn argument(self) -> S {
        self.im.arctangent2(self.re)
    }

    /// The number with absolute value `radius` and argument `angle`.
    pub open spec fn polar(radius: S, angle: S) -> Self {
        Complex { re: radius.times(angle.cosine()), im: radius.times(angle.sine()) }
    }

    /// The exponential `e^re (cos im + i sin im)`.
    pub open spec fn exponential(self) -> Self {
        Self::polar(self.re.exponential(), self.im)
    }

    /// The principal value of the logarithm: `ln |z| + i arg z`.
    pub open spec fn logarithm(self) -> Self {
        Complex { re: self.norm().logarithm(), im: self.argument() }
    }

    /// The principal value of the square root: the root of the absolute
    /// value, at half the argument.
    pub open spec fn principal_root(self) -> Self {
        let two = S::one_value().plus(S::one_value());
        Self::polar(self.norm().root(), self.argument().over(two))
    }

    pub fn magnitude(self) -> (r: S)
        ensures
            r == self.norm(),
    {
        self.magnitude_squared().sqrt()
    }

    pub fn arg(self) -> (r: S)
        ensures
            r == self.argument(),
    {
        self.im.atan2(self.re)
    }

    /// Builds the number with absolute value `radius` and argument `angle`.
    pub fn from_polar_decomposition(radius: S, angle: Radians<S>) -> (r: Self)
        ensures
            r == Self::polar(radius, angle.0),
    {
        Complex { re: radius.mul(angle.0.cos()), im: radius.mul(angle.0.sin()) }
    }

    /// Builds the number on the unit circle with argument `angle`.
    pub fn from_angle(angle: Radians<S>) -> (r: Self)
        ensures
            r == Self::polar(S::one_value(), angle.0),
    {
        Self::from_polar_decomposition(S::one(), angle)
    }

    /// The absolute value and the argument.
    pub fn polar_decomposition(self) -> (r: (S, Radians<S>))
        ensures
            r.0 == self.norm(),
            r.1 == Radians(self.argument()),
    {
        (self.magnitude(), Radians(self.arg()))
    }

    pub fn exp(self) -> (r: Self)
        ensures
            r == self.exponential(),
    {
        let exp_re = self.re.exp();
        Complex { re: exp_re.mul(self.im.cos()), im: exp_re.mul(self.im.sin()) }
    }

    /// The principal value of the natural logarithm.
    pub fn ln(self) -> (r: Self)
        ensures
            r == self.logarithm(),
    {
        let magnitude = self.magnitude();
        let arg = self.arg();
        Complex { re: magnitude.ln(), im: arg }
    }

    /// The principal value of the square root.
    pub fn sqrt(self) -> (r: Self)
        ensures
            r == self.principal_root(),
    {
        let two = S::one().add(S::one());
        let radius = self.magnitude().sqrt();
        let half_angle = self.arg().div(two);
        Complex { re: radius.mul(half_angle.cos()), im: radius.mul(half_angle.sin()) }
    }
}


/// Multiplication of complex numbers is commutative.
pub proof fn lemma_complex_times_commutes<S: Field>(a: Complex<S>, b: Complex<S>)
    ensures
        a.times(b) == b.times(a),
{
    S::law_minus(a.re.times(b.re), a.im.times(b.im));
    let t0 = a.im.times(b.im).negated();
    S::law_plus_commutes(a.re.times(b.re), t0);
    S::law_minus(b.re.times(a.re), b.im.times(a.im));
    S::law_times_commutes(b.re, a.re);
    S::law_times_commutes(b.im, a.im);
    S::law_plus_commutes(a.re.times(b.re), t0);
    S::law_plus_commutes(a.re.times(b.im), a.im.times(b.re));
    S::law_times_commutes(b.re, a.im);
    S::law_times_commutes(b.im, a.re);
}

/// Multiplication of complex numbers is associative.
pub proof fn lemma_complex_times_associates<S: Field>(a: Complex<S>, b: Complex<S>, c: Complex<S>)
    ensures
        a.times(b).times(c) == a.times(b.times(c)),
{
    let t0 = a.re.times(b.re).minus(a.im.times(b.im));
    let t1 = a.re.times(b.im).plus(a.im.times(b.re));
    S::law_minus(t0.times(c.re), t1.times(c.im));
    S::law_minus(a.re.times(b.re), a.im.times(b.im));
    let t2 = a.im.times(b.im).negated();
    S::law_plus_commutes(a.re.times(b.re), t2);
    lemma_distributes_right(t2, a.re.times(b.re), c.re);
    lemma_negated_times(a.im.times(b.im), c.re);
    S::law_times_associates(a.im, b.im, c.re);
    S::law_times_associates(a.re, b.re, c.re);
    S::law_plus_commutes(a.re.times(b.im), a.im.times(b.re));
    lemma_distributes_right(a.im.times(b.re), a.re.times(b.im), c.im);
    S::law_times_associates(a.im, b.re, c.im);
    S::law_times_associates(a.re, b.im, c.im);
    let t3 = a.im.times(b.re.times(c.im));
    let t4 = a.re.times(b.im.times(c.im));
    lemma_negated_sum(t3, t4);
    let t5 = a.im.times(b.im.times(c.re));
    let t6 = a.re.times(b.re.times(c.re));
    let t7 = t3.negated().plus(t4.negated());
    S::law_plus_associates(t5.negated(), t6, t7);
    lemma_swap_terms(t6, t3.negated(), t4.negated());
    S::law_plus_commutes(t6, t4.negated());
    let t8 = b.re.times(c.re).minus(b.im.times(c.im));
    let t9 = b.re.times(c.im).plus(b.im.times(c.re));
    S::law_minus(a.re.times(t8), a.im.times(t9));
    S::law_minus(b.re.times(c.re), b.im.times(c.im));
    let t10 = b.im.times(c.im).negated();
    S::law_plus_commutes(b.re.times(c.re), t10);
    S::law_distributes(a.re, t10, b.re.times(c.re));
    lemma_times_negated(a.re, b.im.times(c.im));
    S::law_plus_commutes(b.re.times(c.im), b.im.times(c.re));
    S::law_distributes(a.im, b.im.times(c.re), b.re.times(c.im));
    lemma_negated_sum(t5, t3);
    let t11 = t5.negated().plus(t3.negated());
    S::law_plus_associates(t4.negated(), t6, t11);
    lemma_swap_terms(t6, t5.negated(), t3.negated());
    S::law_plus_commutes(t6, t3.negated());
    lemma_swap_terms(t4.negated(), t5.negated(), t3.negated().plus(t6));
    lemma_swap_terms(t4.negated(), t3.negated(), t6);
    S::law_minus(a.re.times(b.re), a.im.times(b.im));
    let t0 = a.im.times(b.im).negated();
    S::law_plus_commutes(a.re.times(b.re), t0);
    lemma_distributes_right(t0, a.re.times(b.re), c.im);
    lemma_negated_times(a.im.times(b.im), c.im);
    S::law_times_associates(a.im, b.im, c.im);
    S::law_times_associates(a.re, b.re, c.im);
    S::law_plus_commutes(a.re.times(b.im), a.im.times(b.re));
    lemma_distributes_right(a.im.times(b.re), a.re.times(b.im), c.re);
    S::law_times_associates(a.im, b.re, c.re);
    S::law_times_associates(a.re, b.im, c.re);
    let t1 = a.im.times(b.im.times(c.im));
    let t2 = a.re.times(b.re.times(c.im));
    let t3 = a.im.times(b.re.times(c.re));
    let t4 = a.re.times(b.im.times(c.re));
    S::law_plus_associates(t1.negated(), t2, t3.plus(t4));
    lemma_swap_terms(t2, t3, t4);
    S::law_plus_commutes(t2, t4);
    S::law_plus_commutes(b.re.times(c.im), b.im.times(c.re));
    S::law_distributes(a.re, b.im.times(c.re), b.re.times(c.im));
    S::law_minus(b.re.times(c.re), b.im.times(c.im));
    let t5 = b.im.times(c.im).negated();
    S::law_plus_commutes(b.re.times(c.re), t5);
    S::law_distributes(a.im, t5, b.re.times(c.re));
    lemma_times_negated(a.im, b.im.times(c.im));
    S::law_plus_associates(t4, t2, t1.negated().plus(t3));
    lemma_swap_terms(t2, t1.negated(), t3);
    S::law_plus_commutes(t2, t3);
    lemma_swap_terms(t4, t1.negated(), t3.plus(t2));
    lemma_swap_terms(t4, t3, t2);
}

/// The squared absolute value of a product is the product of the squared
/// absolute values.
pub proof fn lemma_complex_norm_of_product<S: Field>(a: Complex<S>, b: Complex<S>)
    ensures
        a.times(b).norm_squared() == a.norm_squared().times(b.norm_squared()),
{
    S::law_minus(a.re.times(b.re), a.im.times(b.im));
    let t0 = a.im.times(b.im).negated();
    S::law_plus_commutes(a.re.times(b.re), t0);
    let t1 = t0.plus(a.re.times(b.re));
    lemma_distributes_right(t0, a.re.times(b.re), t1);
    S::law_distributes(t0, t0, a.re.times(b.re));
    lemma_negated_times(a.im.times(b.im), t0);
    lemma_times_negated(a.im.times(b.im), a.im.times(b.im));
    let t2 = a.im.times(b.im).times(a.im.times(b.im));
    lemma_negated_twice(t2);
    S::law_times_associates(a.im, b.im, a.im.times(b.im));
    lemma_swap_factors(b.im, a.im, b.im);
    lemma_negated_times(a.im.times(b.im), a.re.times(b.re));
    S::law_times_associates(a.im, b.im, a.re.times(b.re));
    lemma_swap_factors(b.im, a.re, b.re);
    S::law_distributes(a.re.times(b.re), t0, a.re.times(b.re));
    lemma_times_negated(a.re.times(b.re), a.im.times(b.im));
    S::law_times_associates(a.re, b.re, a.im.times(b.im));
    lemma_swap_factors(b.re, a.im, b.im);
    S::law_times_commutes(b.re, b.im);
    lemma_swap_factors(a.re, a.im, b.im.times(b.re));
    S::law_times_associates(a.re, b.re, a.re.times(b.re));
    lemma_swap_factors(b.re, a.re, b.re);
    let t3 = a.im.times(b.im.times(b.im));
    let t4 = a.re.times(b.im.times(b.re));
    let t5 = a.re.times(b.re.times(b.re));
    let t6 = a.im.times(t4).negated().plus(a.re.times(t5));
    S::law_plus_associates(a.im.times(t3), a.im.times(t4).negated(), t6);
    S::law_plus_commutes(a.re.times(b.im), a.im.times(b.re));
    let t7 = a.im.times(b.re).plus(a.re.times(b.im));
    lemma_distributes_right(a.im.times(b.re), a.re.times(b.im), t7);
    S::law_distributes(a.im.times(b.re), a.im.times(b.re), a.re.times(b.im));
    S::law_times_associates(a.im, b.re, a.im.times(b.re));
    lemma_swap_factors(b.re, a.im, b.re);
    S::law_times_associates(a.im, b.re, a.re.times(b.im));
    lemma_swap_factors(b.re, a.re, b.im);
    S::law_times_commutes(b.re, b.im);
    S::law_distributes(a.re.times(b.im), a.im.times(b.re), a.re.times(b.im));
    S::law_times_associates(a.re, b.im, a.im.times(b.re));
    lemma_swap_factors(b.im, a.im, b.re);
    lemma_swap_factors(a.re, a.im, b.im.times(b.re));
    S::law_times_associates(a.re, b.im, a.re.times(b.im));
    lemma_swap_factors(b.im, a.re, b.im);
    let t8 = a.im.times(b.re.times(b.re));
    let t9 = a.re.times(b.im.times(b.im));
    let t10 = a.im.times(t4).plus(a.re.times(t9));
    S::law_plus_associates(a.im.times(t8), a.im.times(t4), t10);
    let t11 = a.im.times(t4).negated().plus(t6);
    let t12 = a.im.times(t8).plus(a.im.times(t4).plus(t10));
    S::law_plus_associates(a.im.times(t3), t11, t12);
    S::law_plus_associates(a.im.times(t4).negated(), t6, t12);
    S::law_plus_associates(a.im.times(t4).negated(), a.re.times(t5), t12);
    lemma_swap_terms(a.re.times(t5), a.im.times(t8), a.im.times(t4).plus(t10));
    lemma_swap_terms(a.re.times(t5), a.im.times(t4), t10);
    lemma_swap_terms(a.re.times(t5), a.im.times(t4), a.re.times(t9));
    S::law_plus_commutes(a.re.times(t5), a.re.times(t9));
    let t13 = a.re.times(t9).plus(a.re.times(t5));
    let t14 = a.im.times(t4).plus(a.im.times(t4).plus(t13));
    lemma_swap_terms(a.im.times(t4).negated(), a.im.times(t8), t14);
    lemma_cancels_front(a.im.times(t4), a.im.times(t4).plus(t13));
    lemma_swap_terms(a.im.times(t4).negated(), a.im.times(t8), a.im.times(t4).plus(t13));
    lemma_cancels_front(a.im.times(t4), t13);
    S::law_plus_commutes(a.re.times(a.re), a.im.times(a.im));
    S::law_plus_commutes(b.re.times(b.re), b.im.times(b.im));
    let t15 = b.im.times(b.im).plus(b.re.times(b.re));
    lemma_distributes_right(a.im.times(a.im), a.re.times(a.re), t15);
    S::law_distributes(a.im.times(a.im), b.im.times(b.im), b.re.times(b.re));
    S::law_times_associates(a.im, a.im, b.im.times(b.im));
    S::law_times_associates(a.im, a.im, b.re.times(b.re));
    S::law_distributes(a.re.times(a.re), b.im.times(b.im), b.re.times(b.re));
    S::law_times_associates(a.re, a.re, b.im.times(b.im));
    S::law_times_associates(a.re, a.re, b.re.times(b.re));
    S::law_plus_associates(a.im.times(t3), a.im.times(t8), t13);
}

/// A complex number times its conjugate is its squared absolute value.
pub proof fn lemma_complex_times_conjugate<S: Field>(a: Complex<S>)
    ensures
        a.times(a.conjugated()) == (Complex { re: a.norm_squared(), im: S::zero_value() }),
{
    let t0 = a.im.times(a.im.negated());
    S::law_minus(a.re.times(a.re), t0);
    lemma_times_negated(a.im, a.im);
    lemma_negated_twice(a.im.times(a.im));
    S::law_plus_commutes(a.re.times(a.re), a.im.times(a.im));
    S::law_plus_commutes(a.re.times(a.re), a.im.times(a.im));
    lemma_times_negated(a.re, a.im);
    S::law_times_commutes(a.re, a.im);
    lemma_negated_plus(a.im.times(a.re));
}

/// A division by a number other than zero is a multiplication by its
/// reciprocal.
pub proof fn lemma_over_is_times_reciprocal<S: Field>(a: S, b: S)
    requires
        !b.vanishes(),
    ensures
        a.over(b) == a.times(S::one_value().over(b)),
{
    let k = S::one_value().over(b);
    S::law_over(a, b);
    S::law_over(S::one_value(), b);
    lemma_swap_factors(b, a, k);
    S::law_times_one(a);
    lemma_cancel_factor(b, a.over(b), a.times(k));
}

/// A complex number whose squared absolute value is not zero, times its
/// reciprocal, is one.
pub proof fn lemma_complex_inverse_cancels<S: Field>(a: Complex<S>)
    requires
        !a.norm_squared().vanishes(),
    ensures
        a.times(a.inverted()) == (Complex { re: S::one_value(), im: S::zero_value() }),
{
    let n = a.norm_squared();
    let k = S::one_value().over(n);
    lemma_over_is_times_reciprocal(a.re, n);
    lemma_over_is_times_reciprocal(a.im.negated(), n);
    // a (conj(a) k) = (a conj(a)) k = n k = 1
    let conj = a.conjugated();
    lemma_complex_times_conjugate(a);
    S::law_times_associates(a.re, a.re, k);
    S::law_times_associates(a.im, a.im.negated(), k);
    S::law_times_associates(a.re, a.im.negated(), k);
    S::law_times_associates(a.im, a.re, k);
    lemma_minus_times(a.re.times(a.re), a.im.times(a.im.negated()), k);
    lemma_distributes_right(a.re.times(a.im.negated()), a.im.times(a.re), k);
    S::law_over(S::one_value(), n);
    lemma_zero_times(k);
}

/// `(a - b) * c = a * c - b * c`.
proof fn lemma_minus_times<S: Field>(a: S, b: S, c: S)
    ensures
        a.minus(b).times(c) == a.times(c).minus(b.times(c)),
{
    S::law_times_commutes(a.minus(b), c);
    lemma_times_minus(c, a, b);
    S::law_times_commutes(c, a);
    S::law_times_commutes(c, b);
}

} // verus!
