//! The append-only log of contest outcomes and its aggregate queries.

use crate::heads_up::HeadsUp;
use crate::win::Win;
use crate::Result;
use crate::PlayerFlag;
use vstd::prelude::*;

verus! {

/// How many outcomes in `s` count as wins for `target` (ties included).
pub open spec fn count_wins(s: Seq<PlayerFlag>, target: PlayerFlag) -> nat
    decreases s.len(),
{
    if s.len() == 0 {
        0
    } else {
        count_wins(s.drop_last(), target) + if s.last().win_for_spec(target) {
            1nat
        } else {
            0nat
        }
    }
}

/// How many outcomes in `s` count as wins for `target` and are ties.
pub open spec fn count_win_ties(s: Seq<PlayerFlag>, target: PlayerFlag) -> nat
    decreases s.len(),
{
    if s.len() == 0 {
        0
    } else {
        count_win_ties(s.drop_last(), target) + if s.last().win_for_spec(target)
            && s.last().is_tie_spec() {
            1nat
        } else {
            0nat
        }
    }
}

/// How many outcomes in `s` fall, once projected onto the first two players'
/// bits, into the given two-player category: first alone, second alone, or
/// both at once. `mask` selects the two bits and `want` is the projected
/// pattern looked for.
pub open spec fn count_projected(s: Seq<PlayerFlag>, mask: PlayerFlag, want: PlayerFlag) -> nat
    decreases s.len(),
{
    if s.len() == 0 {
        0
    } else {
        count_projected(s.drop_last(), mask, want) + if s.last() & mask == want {
            1nat
        } else {
            0nat
        }
    }
}

/// An ordered, append-only log of contest outcomes, one [`PlayerFlag`] per
/// contest. It only ever grows; every query is an aggregate over the whole
/// sequence.
#[derive(Clone, Debug)]
pub struct Wins(Vec<PlayerFlag>);

impl View for Wins {
    type V = Seq<PlayerFlag>;

    closed spec fn view(&self) -> Seq<PlayerFlag> {
        self.0@
    }
}

impl Default for Wins {
    /// An empty log.
    fn default() -> (r: Self)
        ensures
            r@ == Seq::<PlayerFlag>::empty(),
    {
        Wins(Vec::new())
    }
}

impl From<Vec<PlayerFlag>> for Wins {
    fn from(counts: Vec<PlayerFlag>) -> (r: Self) {
        Wins(counts)
    }
}

impl vstd::std_specs::convert::FromSpecImpl<Vec<PlayerFlag>> for Wins {
    open spec fn obeys_from_spec() -> bool {
        true
    }

    closed spec fn from_spec(counts: Vec<PlayerFlag>) -> Wins {
        Wins(counts)
    }
}

impl Wins {
    /// Records one contest outcome.
    pub fn add(&mut self, count: PlayerFlag)
        ensures
            final(self)@ == old(self)@.push(count),
    {
        self.0.push(count);
    }

    /// Records the same outcome `x` times, e.g. a precomputed combinatorial
    /// count of deals with this exact result.
    pub fn add_x(&mut self, count: PlayerFlag, x: usize)
        ensures
            final(self)@ == old(self)@ + Seq::new(x as nat, |j: int| count),
    {
        let mut done: usize = 0;
        while done < x
            invariant
                done <= x,
                self@ == old(self)@ + Seq::new(done as nat, |j: int| count),
            decreases x - done,
        {
            self.0.push(count);
            done = done + 1;
            proof {
                assert(self@ =~= old(self)@ + Seq::new(done as nat, |j: int| count));
            }
        }
    }

    /// Records a clear win for the first player.
    pub fn add_win_first(&mut self)
        ensures
            final(self)@ == old(self)@.push(Win::FIRST),
    {
        self.0.push(Win::FIRST);
    }

    /// Records a clear win for the second player.
    pub fn add_win_second(&mut self)
        ensures
            final(self)@ == old(self)@.push(Win::SECOND),
    {
        self.0.push(Win::SECOND);
    }

    /// Records a clear win for the third player.
    pub fn add_win_third(&mut self)
        ensures
            final(self)@ == old(self)@.push(Win::THIRD),
    {
        self.0.push(Win::THIRD);
    }

    /// Appends the whole contents of another log, in its order, to this one.
    pub fn extend(&mut self, other: &Wins)
        ensures
            final(self)@ == old(self)@ + other@,
    {
        let mut i: usize = 0;
        while i < other.0.len()
            invariant
                i <= other@.len(),
                self@ == old(self)@ + other@.take(i as int),
            decreases other@.len() - i,
        {
            self.0.push(other.0[i]);
            i = i + 1;
            proof {
                assert(self@ =~= old(self)@ + other@.take(i as int));
            }
        }
        proof {
            assert(old(self)@ + other@.take(other@.len() as int) =~= old(self)@ + other@);
        }
    }

    /// The recorded outcomes, oldest first.
    pub fn get(&self) -> (r: &Vec<PlayerFlag>)
        ensures
            r@ == self@,
    {
        &self.0
    }

    /// Whether no contest has been recorded yet.
    pub fn is_empty(&self) -> (r: bool)
        ensures
            r == (self@.len() == 0),
    {
        self.0.is_empty()
    }

    /// The number of recorded contests.
    pub fn len(&self) -> (r: usize)
        ensures
            r == self@.len(),
    {
        self.0.len()
    }

    /// The number of outcomes that count as wins for `result` (ties
    /// included), paired with how many of those are ties. Callers who want
    /// wins without ties subtract the second count from the first.
    pub fn wins_for(&self, result: PlayerFlag) -> (r: (usize, usize))
        ensures
            r.0 == count_wins(self@, result),
            r.1 == count_win_ties(self@, result),
    {
        let mut wins: usize = 0;
        let mut ties: usize = 0;
        let mut i: usize = 0;
        while i < self.0.len()
            invariant
                i <= self@.len(),
                wins == count_wins(self@.take(i as int), result),
                ties == count_win_ties(self@.take(i as int), result),
            decreases self@.len() - i,
        {
            proof {
                lemma_count_wins_bounds(self@.take(i as int), result);
                lemma_count_prefix_step(self@, result, i as int);
            }
            let flag = self.0[i];
            if flag.win_for(result) {
                wins = wins + 1;
                if flag.is_tie() {
                    ties = ties + 1;
                }
            }
            i = i + 1;
        }
        proof {
            assert(self@.take(self@.len() as int) =~= self@);
        }
        (wins, ties)
    }

    /// Splits the log into the three two-player categories — first player
    /// wins alone, second player wins alone, the two tie — looking only at
    /// the first two players' bits; any higher bit in an outcome is ignored
    /// by this projection, so it never fails, whatever the log holds.
    pub fn results_heads_up(&self) -> (r: HeadsUp)
        ensures
            r.first_wins == count_projected(self@, Win::FIRST | Win::SECOND, Win::FIRST),
            r.second_wins == count_projected(self@, Win::FIRST | Win::SECOND, Win::SECOND),
            r.ties == count_projected(self@, Win::FIRST | Win::SECOND, Win::FIRST | Win::SECOND),
    {
        let mask: PlayerFlag = Win::FIRST | Win::SECOND;
        let mut first: usize = 0;
        let mut second: usize = 0;
        let mut both: usize = 0;
        let mut i: usize = 0;
        while i < self.0.len()
            invariant
                i <= self@.len(),
                mask == Win::FIRST | Win::SECOND,
                first == count_projected(self@.take(i as int), mask, Win::FIRST),
                second == count_projected(self@.take(i as int), mask, Win::SECOND),
                both == count_projected(self@.take(i as int), mask, mask),
            decreases self@.len() - i,
        {
            proof {
                assert(1u16 | 2u16 == 3u16) by (bit_vector);
                lemma_count_projected_le(self@.take(i as int), mask, Win::FIRST);
                lemma_count_projected_le(self@.take(i as int), mask, Win::SECOND);
                lemma_count_projected_le(self@.take(i as int), mask, mask);
                assert(self@.take(i + 1).drop_last() =~= self@.take(i as int));
                assert(self@.take(i + 1).last() == self@[i as int]);
                assert(count_projected(self@.take(i + 1), mask, mask) == count_projected(
                    self@.take(i as int),
                    mask,
                    mask,
                ) + if self@[i as int] & mask == mask {
                    1nat
                } else {
                    0nat
                });
            }
            let projected = self.0[i] & mask;
            if projected == Win::FIRST {
                first = first + 1;
            } else if projected == Win::SECOND {
                second = second + 1;
            } else if projected == mask {
                both = both + 1;
            }
            i = i + 1;
        }
        proof {
            assert(self@.take(self@.len() as int) =~= self@);
        }
        HeadsUp::new(first, second, both)
    }
}

/// In any log, for any target, the tie count never exceeds the win count,
/// which never exceeds the number of recorded contests.
pub proof fn lemma_count_wins_bounds(s: Seq<PlayerFlag>, target: PlayerFlag)
    ensures
        count_win_ties(s, target) <= count_wins(s, target) <= s.len(),
    decreases s.len(),
{
    if s.len() > 0 {
        lemma_count_wins_bounds(s.drop_last(), target);
    }
}

/// Extending a prefix of `s` by its next element extends both counts by that
/// element's contribution.
proof fn lemma_count_prefix_step(s: Seq<PlayerFlag>, target: PlayerFlag, i: int)
    requires
        0 <= i < s.len(),
    ensures
        count_wins(s.take(i + 1), target) == count_wins(s.take(i), target) + if s[
            i
        ].win_for_spec(target) {
            1nat
        } else {
            0nat
        },
        count_win_ties(s.take(i + 1), target) == count_win_ties(s.take(i), target) + if s[
            i
        ].win_for_spec(target) && s[i].is_tie_spec() {
            1nat
        } else {
            0nat
        },
{
    assert(s.take(i + 1).drop_last() =~= s.take(i));
}

/// A projected category count never exceeds the log's length.
proof fn lemma_count_projected_le(s: Seq<PlayerFlag>, mask: PlayerFlag, want: PlayerFlag)
    ensures
        count_projected(s, mask, want) <= s.len(),
    decreases s.len(),
{
    if s.len() > 0 {
        lemma_count_projected_le(s.drop_last(), mask, want);
    }
}

} // verus!
