//! Angles in degrees, as far as a lookup by whole-degree limits needs them.

use vstd::prelude::*;

verus! {

/// An angle in degrees, held as the whole degree at or below it and whether
/// the angle lies above that whole degree. `whole: 40, fraction: false` is 40
/// degrees exactly; `whole: -76, fraction: true` is any angle strictly
/// between -76 and -75 degrees. Comparing the angle with a whole number of
/// degrees needs no more than this.
#[derive(Clone, Copy, Debug, PartialEq, Eq, Structural)]
pub struct Degrees {
    /// The largest whole number of degrees that is not above the angle.
    pub whole: i64,
    /// Whether the angle is more than `whole` degrees.
    pub fraction: bool,
}

impl Degrees {
    /// The angle is less than `bound` degrees.
    pub open spec fn below(self, bound: int) -> bool {
        self.whole < bound
    }

    /// The angle is `bound` degrees or more.
    pub open spec fn at_least(self, bound: int) -> bool {
        self.whole >= bound
    }

    /// The angle is more than `bound` degrees.
    pub open spec fn above(self, bound: int) -> bool {
        self.whole > bound || (self.whole == bound && self.fraction)
    }

    /// The angle is `bound` degrees or less.
    pub open spec fn at_most(self, bound: int) -> bool {
        self.whole < bound || (self.whole == bound && !self.fraction)
    }

    /// `self` holds the angle of `x` degrees.
    pub open spec fn holds(self, x: real) -> bool {
        self.whole == x.floor() && (self.fraction <==> x != x.floor() as real)
    }

    /// The angle of exactly `whole` degrees.
    pub fn exactly(whole: i64) -> (r: Degrees)
        ensures
            r == (Degrees { whole, fraction: false }),
    {
        Degrees { whole, fraction: false }
    }

    /// An angle strictly between `whole` and `whole + 1` degrees.
    pub fn past(whole: i64) -> (r: Degrees)
        ensures
            r == (Degrees { whole, fraction: true }),
    {
        Degrees { whole, fraction: true }
    }

    /// Tells whether the angle is less than `bound` degrees.
    pub fn is_below(&self, bound: i64) -> (r: bool)
        ensures
            r == self.below(bound as int),
    {
        self.whole < bound
    }

    /// Tells whether the angle is `bound` degrees or more.
    pub fn is_at_least(&self, bound: i64) -> (r: bool)
        ensures
            r == self.at_least(bound as int),
    {
        self.whole >= bound
    }

    /// Tells whether the angle is more than `bound` degrees.
    pub fn is_above(&self, bound: i64) -> (r: bool)
        ensures
            r == self.above(bound as int),
    {
        self.whole > bound || (self.whole == bound && self.fraction)
    }

    /// Tells whether the angle is `bound` degrees or less.
    pub fn is_at_most(&self, bound: i64) -> (r: bool)
        ensures
            r == self.at_most(bound as int),
    {
        self.whole < bound || (self.whole == bound && !self.fraction)
    }
}

/// What the four comparisons say of a held angle is what holds of the angle
/// itself.
pub proof fn lemma_comparisons(d: Degrees, x: real, bound: int)
    requires
        d.holds(x),
    ensures
        d.below(bound) <==> x < bound as real,
        d.at_least(bound) <==> x >= bound as real,
        d.above(bound) <==> x > bound as real,
        d.at_most(bound) <==> x <= bound as real,
{
}

} // verus!
