//! Exact fractions for reported averages.
//!
//! Every averaged or scaled output of the engine is an exact ratio of two
//! integers.  Carrying the numerator and denominator separately keeps the
//! core free of floating point while pinning each reported value exactly;
//! a consumer divides the two fields when it wants a decimal reading.
use vstd::prelude::*;

verus! {

/// An exact fraction `num / den`.  A well-formed fraction always has a
/// positive denominator, so converting it to a decimal value can never
/// divide by zero.
#[derive(Clone, Copy, Debug)]
pub struct Frac {
    pub num: i128,
    pub den: i128,
}

impl Frac {
    /// A well-formed fraction never carries a zero or negative denominator.
    pub open spec fn wf(self) -> bool {
        self.den >= 1
    }

    /// The zero value, reported wherever a count of zero would otherwise
    /// force a division by zero.
    pub fn zero() -> (r: Frac)
        ensures
            r.wf(),
            r.num == 0,
            r.den == 1,
    {
        Frac { num: 0, den: 1 }
    }

    /// Builds `num / den`, demanding a positive denominator.
    pub fn new(num: i128, den: i128) -> (r: Frac)
        requires
            den >= 1,
        ensures
            r.wf(),
            r.num == num,
            r.den == den,
    {
        Frac { num, den }
    }

}

} // verus!
