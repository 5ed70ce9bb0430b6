//! An exact probability, kept as a ratio of two integers.
//!
//! The biased boolean draw of a random source succeeds with probability
//! `num / den`. Degenerate ratios are meaningful: `0 / den` never succeeds
//! and `den / den` always succeeds, and the synthesizer's contracts lean on
//! exactly those two facts.

use vstd::prelude::*;

verus! {

/// A probability `num / den`, with `1 <= den` and `num <= den`.
#[derive(Clone, Copy, Debug, PartialEq, Eq, Structural)]
pub struct Probability {
    pub num: u32,
    pub den: u32,
}

impl Probability {
    /// The ratio is well formed: a positive denominator, and a value in `[0, 1]`.
    pub open spec fn wf(self) -> bool {
        1 <= self.den && self.num <= self.den
    }

    /// Probability zero: the draw never succeeds.
    pub open spec fn is_never(self) -> bool {
        self.num == 0
    }

    /// Probability one: the draw always succeeds.
    pub open spec fn is_always(self) -> bool {
        self.num == self.den
    }

    /// A probability from a ratio of integers.
    pub fn ratio(num: u32, den: u32) -> (p: Probability)
        requires
            1 <= den,
            num <= den,
        ensures
            p.wf(),
            p.num == num,
            p.den == den,
    {
        Probability { num, den }
    }

    /// Probability zero.
    pub fn never() -> (p: Probability)
        ensures
            p.wf(),
            p.is_never(),
            !p.is_always(),
    {
        Probability { num: 0, den: 1 }
    }

    /// Probability one.
    pub fn always() -> (p: Probability)
        ensures
            p.wf(),
            p.is_always(),
            !p.is_never(),
    {
        Probability { num: 1, den: 1 }
    }
}

} // verus!
