//! The two-player specialization: three mutually exclusive counters.

use vstd::prelude::*;

verus! {

/// Win/tie counts for a one-on-one contest: how often the first player won
/// alone, how often the second player won alone, and how often the two tied.
/// The three categories are mutually exclusive, so the total number of
/// contests is their sum. Immutable once built.
#[derive(Clone, Copy, Debug, Default, Eq, Hash, Ord, PartialEq, PartialOrd, Structural)]
pub struct HeadsUp {
    pub first_wins: usize,
    pub second_wins: usize,
    pub ties: usize,
}

impl HeadsUp {
    /// Builds a summary from known counts.
    pub fn new(first_wins: usize, second_wins: usize, ties: usize) -> (r: Self)
        ensures
            r.first_wins == first_wins,
            r.second_wins == second_wins,
            r.ties == ties,
    {
        Self { first_wins, second_wins, ties }
    }

    /// The total number of contests: the three counters are mutually
    /// exclusive categories, so their sum covers every recorded contest.
    pub fn total(&self) -> (r: usize)
        requires
            self.first_wins + self.second_wins + self.ties <= usize::MAX,
        ensures
            r == self.first_wins + self.second_wins + self.ties,
    {
        self.first_wins + self.second_wins + self.ties
    }
}

} // verus!
