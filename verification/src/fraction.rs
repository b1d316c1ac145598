//! Exact non-negative fractions, the form in which averages and rates are
//! handed out.

use vstd::prelude::*;

verus! {

/// `num / den` rounded to the nearest integer, halves upwards.
pub open spec fn round_div(num: nat, den: nat) -> nat
    recommends
        den > 0,
{
    (2 * num + den) / (2 * den)
}

/// A fraction of two unsigned integers whose denominator is never zero.
#[derive(Clone, Copy, Debug)]
pub struct Fraction {
    numerator: u64,
    denominator: u64,
}

impl View for Fraction {
    type V = (nat, nat);

    /// Numerator and denominator.
    closed spec fn view(&self) -> (nat, nat) {
        (self.numerator as nat, self.denominator as nat)
    }
}

impl Fraction {
    #[verifier::type_invariant]
    spec fn positive_denominator(self) -> bool {
        self.denominator > 0
    }

    /// The fraction `numerator / denominator`, not reduced.
    pub fn new(numerator: u64, denominator: u64) -> (f: Fraction)
        requires
            denominator > 0,
        ensures
            f@ == (numerator as nat, denominator as nat),
    {
        Fraction { numerator, denominator }
    }

    /// The fraction `0 / 1`.
    pub fn zero() -> (f: Fraction)
        ensures
            f@ == (0nat, 1nat),
    {
        Fraction { numerator: 0, denominator: 1 }
    }

    /// The number above the line.
    pub fn numerator(&self) -> (n: u64)
        ensures
            n == self@.0,
    {
        self.numerator
    }

    /// The number below the line, never zero.
    pub fn denominator(&self) -> (d: u64)
        ensures
            d == self@.1,
            d > 0,
    {
        proof {
            use_type_invariant(self);
        }
        self.denominator
    }

    /// The fraction times `scale`, rounded to the nearest integer, halves
    /// upwards.
    pub fn scaled(&self, scale: u32) -> (r: u128)
        ensures
            self@.1 > 0,
            r == round_div(self@.0 * (scale as nat), self@.1),
    {
        proof {
            use_type_invariant(self);
        }
        let n: u128 = self.numerator as u128;
        let d: u128 = self.denominator as u128;
        let k: u128 = scale as u128;
        assert(n * k <= 0xffff_ffff_ffff_ffff * 0xffff_ffff) by (nonlinear_arith)
            requires
                n <= 0xffff_ffff_ffff_ffff,
                k <= 0xffff_ffff,
        ;
        (2 * (n * k) + d) / (2 * d)
    }
}

} // verus!
