//! Exact fractions, used wherever a score or a proportion is reported.

use vstd::prelude::*;

verus! {

/// A fraction `num / den`; a score or proportion is reported as one, and a
/// caller that wants a float divides.
#[derive(Debug, Clone, Copy, PartialEq, Eq, Structural)]
pub struct Ratio {
    /// Numerator.
    pub num: u64,
    /// Denominator, never zero.
    pub den: u64,
}

impl Ratio {
    /// The denominator is positive.
    pub open spec fn wf(self) -> bool {
        self.den > 0
    }

    /// `num / den`, or zero when `den` is zero (a proportion of nothing).
    pub open spec fn spec_quotient(num: u64, den: u64) -> Ratio {
        if den > 0 {
            Ratio { num, den }
        } else {
            Ratio { num: 0, den: 1 }
        }
    }

    /// `num / den`, or zero when `den` is zero.
    pub fn quotient(num: u64, den: u64) -> (r: Ratio)
        ensures
            r == Ratio::spec_quotient(num, den),
            r.wf(),
    {
        if den > 0 {
            Ratio { num, den }
        } else {
            Ratio { num: 0, den: 1 }
        }
    }

    /// The fraction `num / den` for a positive `den`.
    pub fn new(num: u64, den: u64) -> (r: Ratio)
        requires
            den > 0,
        ensures
            r == (Ratio { num, den }),
            r.wf(),
    {
        Ratio { num, den }
    }
}

} // verus!
