//! An exact rational number, used for time bases and aspect ratios of media
//! frames.

use vstd::prelude::*;

verus! {

/// A rational number with a 32-bit numerator and denominator.
#[derive(Debug, Clone, Copy, PartialEq, Eq, Structural)]
pub struct Rational {
    /// The numerator.
    pub numerator: i32,
    /// The denominator.
    pub denominator: i32,
}

impl Rational {
    /// Creates the rational `numerator / denominator`.
    pub fn new(numerator: i32, denominator: i32) -> (r: Rational)
        ensures
            r.numerator == numerator,
            r.denominator == denominator,
    {
        Rational { numerator, denominator }
    }

    /// The rational zero, written `0 / 1`.
    pub fn zero() -> (r: Rational)
        ensures
            r.numerator == 0,
            r.denominator == 1,
    {
        Rational { numerator: 0, denominator: 1 }
    }
}

} // verus!
