use vstd::prelude::*;

verus! {

/// Number of units that make up a score of exactly one.
pub const SCORE_SCALE: u32 = 1_000_000;

/// A similarity score in the closed range from zero to one, held as a whole
/// number of millionths.
#[derive(Clone, Copy, Debug, PartialEq, Eq, Structural)]
pub struct Score {
    units: u32,
}

impl View for Score {
    type V = int;

    /// The score in millionths.
    closed spec fn view(&self) -> int {
        self.units as int
    }
}

impl Score {
    #[verifier::type_invariant]
    pub(crate) closed spec fn in_range(self) -> bool {
        self.units <= SCORE_SCALE
    }

    /// A score of `units` millionths, or `None` when that exceeds one.
    pub fn new(units: u32) -> (r: Option<Score>)
        ensures
            r is Some <==> units <= SCORE_SCALE,
            r matches Some(s) ==> s@ == units as int,
    {
        if units <= SCORE_SCALE {
            Some(Score { units })
        } else {
            None
        }
    }

    /// The score zero.
    pub fn zero() -> (r: Score)
        ensures
            r@ == 0,
    {
        Score { units: 0 }
    }

    /// The score one.
    pub fn one() -> (r: Score)
        ensures
            r@ == SCORE_SCALE as int,
    {
        Score { units: SCORE_SCALE }
    }

    /// The score in millionths.
    pub fn units(&self) -> (r: u32)
        ensures
            r as int == self@,
            r <= SCORE_SCALE,
    {
        proof {
            use_type_invariant(self);
        }
        self.units
    }

    /// Whether this score is strictly above `other`.
    pub fn exceeds(&self, other: Score) -> (r: bool)
        ensures
            r == (self@ > other@),
    {
        self.units > other.units
    }

    /// Whether this score is strictly below `other`.
    pub fn falls_short_of(&self, other: Score) -> (r: bool)
        ensures
            r == (self@ < other@),
    {
        self.units < other.units
    }
}

} // verus!
