//! The per-player snapshot computed once from a log of outcomes.

use crate::win::Win;
use crate::wins::count_win_ties;
use crate::wins::count_wins;
use crate::wins::lemma_count_wins_bounds;
use crate::wins::Wins;
use crate::PlayerFlag;
use vstd::prelude::*;

verus! {

/// A read-only snapshot of a [`Wins`] log: for each player index below
/// `player_count`, the pair (wins without ties, ties), plus the total number
/// of recorded contests. Computed once by [`Results::from_wins`] and
/// immutable thereafter.
#[derive(Clone, Debug, Default, Eq, PartialEq)]
pub struct Results {
    pub case_count: usize,
    pub player_count: usize,
    pub v: Vec<(usize, usize)>,
}

impl Results {
    /// The stored pair for player `i` is exactly what the log `s` yields for
    /// that player's flag: the tie count, and the win count with ties taken
    /// back out.
    pub open spec fn player_pair_ok(self, s: Seq<PlayerFlag>, i: int) -> bool {
        &&& self.v@[i].1 == count_win_ties(s, Win::flag_of_index(i))
        &&& self.v@[i].0 + count_win_ties(s, Win::flag_of_index(i)) == count_wins(
            s,
            Win::flag_of_index(i),
        )
    }

    /// What it means for a snapshot to have been taken from the log `s` with
    /// the declared `player_count`.
    pub open spec fn is_snapshot_of(self, s: Seq<PlayerFlag>, player_count: usize) -> bool {
        &&& self.case_count == s.len()
        &&& self.player_count == player_count
        &&& self.v@.len() == player_count
        &&& forall|i: int| 0 <= i < player_count ==> #[trigger] self.player_pair_ok(s, i)
    }

    /// Takes the snapshot: one pair per player index in `[0, player_count)`,
    /// each computed from the log with that player's flag.
    pub fn from_wins(wins: &Wins, player_count: usize) -> (r: Results)
        ensures
            r.is_snapshot_of(wins@, player_count),
    {
        let mut v: Vec<(usize, usize)> = Vec::new();
        let mut i: usize = 0;
        while i < player_count
            invariant
                i <= player_count,
                v@.len() == i,
                forall|k: int|
                    0 <= k < i ==> {
                        &&& (#[trigger] v@[k]).1 == count_win_ties(wins@, Win::flag_of_index(k))
                        &&& v@[k].0 + count_win_ties(wins@, Win::flag_of_index(k)) == count_wins(
                            wins@,
                            Win::flag_of_index(k),
                        )
                    },
            decreases player_count - i,
        {
            let (total_wins, ties) = wins.wins_for(Win::from_index(i));
            proof {
                lemma_count_wins_bounds(wins@, Win::flag_of_index(i as int));
            }
            v.push((total_wins - ties, ties));
            i = i + 1;
        }
        let r = Results { case_count: wins.len(), player_count, v };
        proof {
            assert(forall|i: int| 0 <= i < player_count ==> #[trigger] r.player_pair_ok(wins@, i));
        }
        r
    }

    /// The stored (wins, ties) pair for a player, or `(0, 0)` for any index
    /// at or beyond the stored range — an explicit permissive default, not an
    /// error.
    pub fn wins_and_ties(&self, player_index: usize) -> (r: (usize, usize))
        ensures
            player_index < self.v@.len() ==> r == self.v@[player_index as int],
            player_index >= self.v@.len() ==> r == (0usize, 0usize),
    {
        if player_index < self.v.len() {
            self.v[player_index]
        } else {
            (0, 0)
        }
    }

    /// A player's wins and ties combined; `0` for an out-of-range index.
    pub fn wins_total(&self, player_index: usize) -> (r: usize)
        requires
            player_index < self.v@.len() ==> self.v@[player_index as int].0 + self.v@[
                player_index as int
            ].1 <= usize::MAX,
        ensures
            player_index < self.v@.len() ==> r == self.v@[player_index as int].0 + self.v@[
                player_index as int
            ].1,
            player_index >= self.v@.len() ==> r == 0,
    {
        let (wins, ties) = self.wins_and_ties(player_index);
        wins + ties
    }
}

/// Taking the snapshot is deterministic: two snapshots of the same unmodified
/// log with the same player count hold the very same data.
pub proof fn lemma_snapshot_deterministic(
    a: Results,
    b: Results,
    s: Seq<PlayerFlag>,
    player_count: usize,
)
    requires
        a.is_snapshot_of(s, player_count),
        b.is_snapshot_of(s, player_count),
    ensures
        a.case_count == b.case_count,
        a.player_count == b.player_count,
        a.v@ == b.v@,
{
    assert forall|i: int| 0 <= i < a.v@.len() implies a.v@[i] == b.v@[i] by {
        assert(a.player_pair_ok(s, i));
        assert(b.player_pair_ok(s, i));
    }
    assert(a.v@ =~= b.v@);
}

} // verus!
