//! Win/tie accounting for contests in which any number of participants can
//! share first place.
//!
//! A single contest outcome is a [`PlayerFlag`]: a bitmask with one bit per
//! participant (bit 0 for the first player, bit 1 for the second, and so on,
//! up to 16 players). A flag with two or more bits set records a tie among
//! those players. Outcomes are accumulated in a [`wins::Wins`] log, and
//! [`results::Results`] or [`heads_up::HeadsUp`] snapshots report win and tie
//! counts per player.

use vstd::prelude::*;

pub mod heads_up;
pub mod results;
pub mod util;
pub mod win;
pub mod wins;

verus! {

/// One contest outcome: bit `i` is set when player `i` (zero-based) placed
/// first. Several set bits record a tie among those players.
pub type PlayerFlag = u16;

/// The number of set bits in `n`'s binary representation.
pub open spec fn pop_count(n: nat) -> nat
    decreases n,
{
    if n == 0 {
        0
    } else {
        pop_count(n / 2) + n % 2
    }
}

/// A set-bit count never exceeds the number itself.
pub proof fn lemma_pop_count_le(n: nat)
    ensures
        pop_count(n) <= n,
    decreases n,
{
    if n > 0 {
        lemma_pop_count_le(n / 2);
    }
}

/// Classification queries on one recorded contest outcome.
pub trait Result {
    /// Whether this outcome is a tie.
    spec fn is_tie_spec(&self) -> bool;

    /// Whether this outcome counts as a win for every player in `target`.
    spec fn win_for_spec(&self, target: PlayerFlag) -> bool;

    /// A tie: two or more players placed first at once.
    fn is_tie(&self) -> (r: bool)
        ensures
            r == self.is_tie_spec(),
    ;

    /// A win for `target`: every bit set in `target` is also set here, so a
    /// single-bit target asks about one player and a multi-bit target asks
    /// whether that exact tie pattern occurred.
    fn win_for(&self, target: PlayerFlag) -> (r: bool)
        ensures
            r == self.win_for_spec(target),
    ;
}

/// Counts the set bits of `flag`.
fn count_set_bits(flag: PlayerFlag) -> (c: u32)
    ensures
        c == pop_count(flag as nat),
{
    let mut x: u16 = flag;
    let mut c: u32 = 0;
    while x != 0
        invariant
            c + pop_count(x as nat) == pop_count(flag as nat),
        decreases x,
    {
        proof {
            lemma_pop_count_le(flag as nat);
            lemma_pop_count_le(x as nat);
            assert((x & 1) == x % 2) by (bit_vector);
            assert((x >> 1) == x / 2) by (bit_vector);
        }
        c = c + (x & 1) as u32;
        x = x >> 1;
    }
    c
}

impl Result for PlayerFlag {
    open spec fn is_tie_spec(&self) -> bool {
        pop_count(*self as nat) >= 2
    }

    open spec fn win_for_spec(&self, target: PlayerFlag) -> bool {
        *self & target == target
    }

    fn is_tie(&self) -> (r: bool) {
        count_set_bits(*self) >= 2
    }

    fn win_for(&self, target: PlayerFlag) -> (r: bool) {
        *self & target == target
    }
}

} // verus!
