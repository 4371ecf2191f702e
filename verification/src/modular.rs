//! The integers modulo seven: a small field with exact arithmetic.
//!
//! It shows that the laws of a [`Field`] can be met, and it gives concrete
//! values on which the laws of the transformations hold without rounding.
//! Modulo seven the point `(2, 2)` lies on the unit circle, so there are
//! rotations other than the quarter turns.

use crate::scalar::{Field, Scalar, ScalarSigned};
use vstd::arithmetic::div_mod::{lemma_add_mod_noop, lemma_mul_mod_noop_general};
use vstd::arithmetic::mul::{lemma_mul_is_associative, lemma_mul_is_distributive_add};
use vstd::prelude::*;

verus! {

/// A residue class modulo seven.
#[derive(Clone, Copy, Debug, PartialEq, Eq)]
pub enum Mod7 {
    Zero,
    One,
    Two,
    Three,
    Four,
    Five,
    Six,
}

impl Mod7 {
    /// The least non-negative member of the class.
    pub open spec fn residue(self) -> int {
        match self {
            Mod7::Zero => 0,
            Mod7::One => 1,
            Mod7::Two => 2,
            Mod7::Three => 3,
            Mod7::Four => 4,
            Mod7::Five => 5,
            Mod7::Six => 6,
        }
    }

    /// The class of the integer `i`.
    pub open spec fn class_of(i: int) -> Self {
        let r = i % 7;
        if r == 0 {
            Mod7::Zero
        } else if r == 1 {
            Mod7::One
        } else if r == 2 {
            Mod7::Two
        } else if r == 3 {
            Mod7::Three
        } else if r == 4 {
            Mod7::Four
        } else if r == 5 {
            Mod7::Five
        } else {
            Mod7::Six
        }
    }

    /// The multiplicative inverse of a class other than zero, and zero for
    /// zero.
    pub open spec fn reciprocal(self) -> Self {
        match self {
            Mod7::Zero => Mod7::Zero,
            Mod7::One => Mod7::One,
            Mod7::Two => Mod7::Four,
            Mod7::Three => Mod7::Five,
            Mod7::Four => Mod7::Two,
            Mod7::Five => Mod7::Three,
            Mod7::Six => Mod7::Six,
        }
    }

    /// Builds the class of `i`.
    pub fn new(i: u64) -> (r: Self)
        ensures
            r == Self::class_of(i as int),
    {
        Self::from_small(i % 7)
    }

    /// The least non-negative member of the class.
    pub fn value(self) -> (r: u64)
        ensures
            r == self.residue(),
    {
        match self {
            Mod7::Zero => 0,
            Mod7::One => 1,
            Mod7::Two => 2,
            Mod7::Three => 3,
            Mod7::Four => 4,
            Mod7::Five => 5,
            Mod7::Six => 6,
        }
    }

    fn from_small(i: u64) -> (r: Self)
        requires
            i < 7,
        ensures
            r == Self::class_of(i as int),
            r.residue() == i,
    {
        if i == 0 {
            Mod7::Zero
        } else if i == 1 {
            Mod7::One
        } else if i == 2 {
            Mod7::Two
        } else if i == 3 {
            Mod7::Three
        } else if i == 4 {
            Mod7::Four
        } else if i == 5 {
            Mod7::Five
        } else {
            Mod7::Six
        }
    }

    /// Computes the multiplicative inverse, or zero for zero.
    pub fn recip(self) -> (r: Self)
        ensures
            r == self.reciprocal(),
    {
        match self {
            Mod7::Zero => Mod7::Zero,
            Mod7::One => Mod7::One,
            Mod7::Two => Mod7::Four,
            Mod7::Three => Mod7::Five,
            Mod7::Four => Mod7::Two,
            Mod7::Five => Mod7::Three,
            Mod7::Six => Mod7::Six,
        }
    }
}

/// A class is the class of its residue, and the residue of the class of `i`
/// is the remainder of `i`.
pub proof fn lemma_mod7_round_trip(a: Mod7, i: int)
    ensures
        0 <= a.residue() < 7,
        Mod7::class_of(a.residue()) == a,
        Mod7::class_of(i).residue() == i % 7,
{
}

impl Scalar for Mod7 {
    open spec fn zero_value() -> Self {
        Mod7::Zero
    }

    open spec fn one_value() -> Self {
        Mod7::One
    }

    open spec fn plus(self, rhs: Self) -> Self {
        Mod7::class_of(self.residue() + rhs.residue())
    }

    open spec fn minus(self, rhs: Self) -> Self {
        Mod7::class_of(self.residue() + (7 - rhs.residue()))
    }

    open spec fn times(self, rhs: Self) -> Self {
        Mod7::class_of(self.residue() * rhs.residue())
    }

    /// Division is multiplication by the reciprocal; a division by zero
    /// gives zero.
    open spec fn over(self, rhs: Self) -> Self {
        self.times(rhs.reciprocal())
    }

    open spec fn vanishes(self) -> bool {
        self == Mod7::Zero
    }

    fn zero() -> (r: Self) {
        Mod7::Zero
    }

    fn one() -> (r: Self) {
        Mod7::One
    }

    fn add(self, rhs: Self) -> (r: Self) {
        Mod7::from_small((self.value() + rhs.value()) % 7)
    }

    fn sub(self, rhs: Self) -> (r: Self) {
        Mod7::from_small((self.value() + (7 - rhs.value())) % 7)
    }

    fn mul(self, rhs: Self) -> (r: Self) {
        let x = self.value();
        let y = rhs.value();
        assert(x * y <= 36) by (nonlinear_arith)
            requires
                x <= 6,
                y <= 6,
        ;
        Mod7::from_small((x * y) % 7)
    }

    fn div(self, rhs: Self) -> (r: Self) {
        self.mul(rhs.recip())
    }

    fn is_zero(self) -> (r: bool) {
        match self {
            Mod7::Zero => true,
            _ => false,
        }
    }
}

impl ScalarSigned for Mod7 {
    open spec fn negated(self) -> Self {
        Mod7::class_of(7 - self.residue())
    }

    fn neg(self) -> (r: Self) {
        Mod7::from_small((7 - self.value()) % 7)
    }
}

impl Field for Mod7 {
    proof fn law_plus_commutes(a: Self, b: Self) {
    }

    proof fn law_plus_associates(a: Self, b: Self, c: Self) {
    }

    proof fn law_plus_zero(a: Self) {
    }

    proof fn law_plus_negated(a: Self) {
    }

    proof fn law_minus(a: Self, b: Self) {
    }

    proof fn law_times_commutes(a: Self, b: Self) {
        assert(a.residue() * b.residue() == b.residue() * a.residue()) by (nonlinear_arith);
    }

    proof fn law_times_associates(a: Self, b: Self, c: Self) {
        let (x, y, z) = (a.residue(), b.residue(), c.residue());
        lemma_mod7_round_trip(a, x * y);
        lemma_mod7_round_trip(a, y * z);
        lemma_mul_mod_noop_general(x * y, z, 7);
        lemma_mul_mod_noop_general(x, y * z, 7);
        lemma_mul_is_associative(x, y, z);
    }

    proof fn law_times_one(a: Self) {
    }

    proof fn law_distributes(a: Self, b: Self, c: Self) {
        let (x, y, z) = (a.residue(), b.residue(), c.residue());
        lemma_mod7_round_trip(a, y + z);
        lemma_mod7_round_trip(a, x * y);
        lemma_mod7_round_trip(a, x * z);
        lemma_mul_mod_noop_general(x, y + z, 7);
        lemma_add_mod_noop(x * y, x * z, 7);
        lemma_mul_is_distributive_add(x, y, z);
    }

    proof fn law_over(a: Self, b: Self) {
        if !b.vanishes() {
            let r = b.reciprocal();
            Self::law_times_associates(b, a, r);
            Self::law_times_commutes(a, r);
            Self::law_times_commutes(b, a);
            Self::law_times_associates(a, b, r);
            Self::law_times_one(a);
            Self::law_times_associates(b, r, a);
            Self::law_times_commutes(r, a);
            Self::law_times_commutes(Mod7::One, a);
        }
    }

    proof fn law_vanishes(a: Self) {
    }

    proof fn law_nontrivial() {
    }
}

} // verus!
