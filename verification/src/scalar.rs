//! The numeric contract that every other type is generic over.

use vstd::prelude::*;

verus! {

/// A number type with the four arithmetic operations and the constants zero
/// and one.
///
/// Each operation comes as a pair: a specification function that names the
/// mathematical result, and an executable function that computes it. The
/// contracts of the library are written over the specification functions, so
/// they determine every result down to the order of the operations.
pub trait Scalar: Copy {
    /// The additive identity.
    spec fn zero_value() -> Self;

    /// The multiplicative identity.
    spec fn one_value() -> Self;

    /// The sum `self + rhs`.
    spec fn plus(self, rhs: Self) -> Self;

    /// The difference `self - rhs`.
    spec fn minus(self, rhs: Self) -> Self;

    /// The product `self * rhs`.
    spec fn times(self, rhs: Self) -> Self;

    /// The quotient `self / rhs`.
    spec fn over(self, rhs: Self) -> Self;

    /// Whether `self` compares equal to zero.
    spec fn vanishes(self) -> bool;

    fn zero() -> (r: Self)
        ensures
            r == Self::zero_value(),
    ;

    fn one() -> (r: Self)
        ensures
            r == Self::one_value(),
    ;

    fn add(self, rhs: Self) -> (r: Self)
        ensures
            r == self.plus(rhs),
    ;

    fn sub(self, rhs: Self) -> (r: Self)
        ensures
            r == self.minus(rhs),
    ;

    fn mul(self, rhs: Self) -> (r: Self)
        ensures
            r == self.times(rhs),
    ;

    /// Division never fails: what a division by zero returns is up to the
    /// number type, and `over` names it.
    fn div(self, rhs: Self) -> (r: Self)
        ensures
            r == self.over(rhs),
    ;

    fn is_zero(self) -> (r: bool)
        ensures
            r == self.vanishes(),
    ;
}

/// A scalar with additive inverses.
pub trait ScalarSigned: Scalar {
    /// The additive inverse `-self`.
    spec fn negated(self) -> Self;

    fn neg(self) -> (r: Self)
        ensures
            r == self.negated(),
    ;
}

/// A signed scalar with square roots and the elementary transcendental
/// functions, as floating-point numbers have them.
pub trait ScalarFloat: ScalarSigned {
    /// The square root of `self`.
    spec fn root(self) -> Self;

    /// The sine of `self`, an angle in radians.
    spec fn sine(self) -> Self;

    /// The cosine of `self`, an angle in radians.
    spec fn cosine(self) -> Self;

    /// The angle in radians of the point `(rhs, self)`: `atan2(self, rhs)`.
    spec fn arctangent2(self, rhs: Self) -> Self;

    /// The exponential `e^self`.
    spec fn exponential(self) -> Self;

    /// The natural logarithm of `self`.
    spec fn logarithm(self) -> Self;

    fn sqrt(self) -> (r: Self)
        ensures
            r == self.root(),
    ;

    fn sin(self) -> (r: Self)
        ensures
            r == self.sine(),
    ;

    fn cos(self) -> (r: Self)
        ensures
            r == self.cosine(),
    ;

    fn atan2(self, rhs: Self) -> (r: Self)
        ensures
            r == self.arctangent2(rhs),
    ;

    fn exp(self) -> (r: Self)
        ensures
            r == self.exponential(),
    ;

    fn ln(self) -> (r: Self)
        ensures
            r == self.logarithm(),
    ;

    /// Whether `self` and `other` differ by at most `epsilon`.
    spec fn near(self, other: Self, epsilon: Self) -> bool;

    /// Whether `self` and `other` differ by at most `epsilon`, or by at most
    /// `max_relative` times the larger of their absolute values.
    spec fn near_relative(self, other: Self, epsilon: Self, max_relative: Self) -> bool;

    /// Whether `self` and `other` differ by at most `epsilon`, or lie at most
    /// `max_ulps` representable numbers apart.
    spec fn near_ulps(self, other: Self, epsilon: Self, max_ulps: u32) -> bool;

    fn abs_diff_eq(self, other: Self, epsilon: Self) -> (r: bool)
        ensures
            r == self.near(other, epsilon),
    ;

    fn relative_eq(self, other: Self, epsilon: Self, max_relative: Self) -> (r: bool)
        ensures
            r == self.near_relative(other, epsilon, max_relative),
    ;

    fn ulps_eq(self, other: Self, epsilon: Self, max_ulps: u32) -> (r: bool)
        ensures
            r == self.near_ulps(other, epsilon, max_ulps),
    ;
}

/// A signed scalar whose arithmetic is exact: the operations obey the laws of
/// a field.
///
/// Floating-point numbers are not such a type; for them the laws proved over a
/// `Field` hold up to rounding.
pub trait Field: ScalarSigned {
    /// Addition is commutative.
    proof fn law_plus_commutes(a: Self, b: Self)
        ensures
            a.plus(b) == b.plus(a),
    ;

    /// Addition is associative.
    proof fn law_plus_associates(a: Self, b: Self, c: Self)
        ensures
            a.plus(b).plus(c) == a.plus(b.plus(c)),
    ;

    /// Zero is neutral for addition.
    proof fn law_plus_zero(a: Self)
        ensures
            a.plus(Self::zero_value()) == a,
    ;

    /// The negative of a number cancels it.
    proof fn law_plus_negated(a: Self)
        ensures
            a.plus(a.negated()) == Self::zero_value(),
    ;

    /// Subtraction is addition of the negative.
    proof fn law_minus(a: Self, b: Self)
        ensures
            a.minus(b) == a.plus(b.negated()),
    ;

    /// Multiplication is commutative.
    proof fn law_times_commutes(a: Self, b: Self)
        ensures
            a.times(b) == b.times(a),
    ;

    /// Multiplication is associative.
    proof fn law_times_associates(a: Self, b: Self, c: Self)
        ensures
            a.times(b).times(c) == a.times(b.times(c)),
    ;

    /// One is neutral for multiplication.
    proof fn law_times_one(a: Self)
        ensures
            a.times(Self::one_value()) == a,
    ;

    /// Multiplication distributes over addition.
    proof fn law_distributes(a: Self, b: Self, c: Self)
        ensures
            a.times(b.plus(c)) == a.times(b).plus(a.times(c)),
    ;

    /// Division by a number other than zero undoes multiplication by it.
    proof fn law_over(a: Self, b: Self)
        ensures
            !b.vanishes() ==> b.times(a.over(b)) == a,
    ;

    /// A number compares equal to zero exactly when it is zero.
    proof fn law_vanishes(a: Self)
        ensures
            a.vanishes() <==> a == Self::zero_value(),
    ;

    /// Zero and one differ.
    proof fn law_nontrivial()
        ensures
            Self::zero_value() != Self::one_value(),
    ;
}

} // verus!
