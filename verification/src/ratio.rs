//! Exact fractions for the quantities that the game shows as decimal numbers.

use vstd::prelude::*;

verus! {

/// A non-negative fraction `numerator / denominator`, kept as it was computed (not reduced).
#[derive(Clone, Copy, Debug, PartialEq, Eq, Structural)]
pub struct Ratio {
    pub numerator: u128,
    pub denominator: u128,
}

impl Ratio {
    /// A ratio stands for a number when its denominator is not zero.
    pub open spec fn wf(self) -> bool {
        self.denominator > 0
    }

    /// The fraction `0 / 1`.
    pub fn zero() -> (ratio: Ratio)
        ensures
            ratio == (Ratio { numerator: 0, denominator: 1 }),
    {
        Ratio { numerator: 0, denominator: 1 }
    }

    /// Tells whether the fraction is zero.
    pub fn is_zero(&self) -> (zero: bool)
        ensures
            zero == (self.numerator == 0),
    {
        self.numerator == 0
    }

    /// Tells whether the fraction is at least one.
    pub fn is_at_least_one(&self) -> (whole: bool)
        ensures
            whole == (self.numerator >= self.denominator),
    {
        self.numerator >= self.denominator
    }
}

} // verus!
