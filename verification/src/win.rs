//! Named player flags and the index-to-flag conversion.

use crate::PlayerFlag;
use crate::pop_count;
use crate::Result;
use vstd::prelude::*;

verus! {

/// Home of the per-player flag constants and flag-building helpers.
#[derive(Debug)]
pub struct Win;

impl Win {
    pub const FIRST: PlayerFlag = 0b0000_0001;

    pub const SECOND: PlayerFlag = 0b0000_0010;

    pub const THIRD: PlayerFlag = 0b0000_0100;

    pub const FORTH: PlayerFlag = 0b0000_1000;

    pub const FIFTH: PlayerFlag = 0b0001_0000;

    pub const SIXTH: PlayerFlag = 0b0010_0000;

    pub const SEVENTH: PlayerFlag = 0b0100_0000;

    pub const EIGHT: PlayerFlag = 0b1000_0000;

    pub const NINTH: PlayerFlag = 0b1_0000_0000;

    pub const TENTH: PlayerFlag = 0b10_0000_0000;

    pub const ELEVENTH: PlayerFlag = 0b100_0000_0000;

    pub const TWELFTH: PlayerFlag = 0b1000_0000_0000;

    pub const THIRTEENTH: PlayerFlag = 0b1_0000_0000_0000;

    pub const FOURTEENTH: PlayerFlag = 0b10_0000_0000_0000;

    pub const FIFTEENTH: PlayerFlag = 0b100_0000_0000_0000;

    pub const SIXTEENTH: PlayerFlag = 0b1000_0000_0000_0000;

    /// The flag for the zero-based player index `i`: exactly bit `i` for
    /// `i` in `[0, 16)`, and the zero flag for any other index.
    pub open spec fn flag_of_index(i: int) -> PlayerFlag {
        if 0 <= i < 16 {
            1u16 << i as u16
        } else {
            0u16
        }
    }

    /// Turns a zero-based player index into that player's flag. An index of
    /// 16 or more silently yields the zero flag rather than an error.
    pub fn from_index(i: usize) -> (r: PlayerFlag)
        ensures
            r == Win::flag_of_index(i as int),
    {
        proof {
            assert(1u16 << 0u16 == 0b0000_0001u16 && 1u16 << 1u16 == 0b0000_0010u16
                && 1u16 << 2u16 == 0b0000_0100u16 && 1u16 << 3u16 == 0b0000_1000u16
                && 1u16 << 4u16 == 0b0001_0000u16 && 1u16 << 5u16 == 0b0010_0000u16
                && 1u16 << 6u16 == 0b0100_0000u16 && 1u16 << 7u16 == 0b1000_0000u16
                && 1u16 << 8u16 == 0b1_0000_0000u16 && 1u16 << 9u16 == 0b10_0000_0000u16
                && 1u16 << 10u16 == 0b100_0000_0000u16 && 1u16 << 11u16 == 0b1000_0000_0000u16
                && 1u16 << 12u16 == 0b1_0000_0000_0000u16
                && 1u16 << 13u16 == 0b10_0000_0000_0000u16
                && 1u16 << 14u16 == 0b100_0000_0000_0000u16
                && 1u16 << 15u16 == 0b1000_0000_0000_0000u16) by (bit_vector);
        }
        match i {
            0 => Win::FIRST,
            1 => Win::SECOND,
            2 => Win::THIRD,
            3 => Win::FORTH,
            4 => Win::FIFTH,
            5 => Win::SIXTH,
            6 => Win::SEVENTH,
            7 => Win::EIGHT,
            8 => Win::NINTH,
            9 => Win::TENTH,
            10 => Win::ELEVENTH,
            11 => Win::TWELFTH,
            12 => Win::THIRTEENTH,
            13 => Win::FOURTEENTH,
            14 => Win::FIFTEENTH,
            15 => Win::SIXTEENTH,
            _ => 0,
        }
    }

    /// Combines two flags into one, e.g. to build a multi-way-tie pattern
    /// out of single-player flags.
    pub fn or(a: PlayerFlag, b: PlayerFlag) -> (r: PlayerFlag)
        ensures
            r == (a | b),
    {
        a | b
    }
}

/// Every valid player index maps to a flag with exactly one set bit, and a
/// single-bit flag is never a tie.
pub proof fn lemma_from_index_single(i: int)
    requires
        0 <= i < 16,
    ensures
        pop_count(Win::flag_of_index(i) as nat) == 1,
        !Win::flag_of_index(i).is_tie_spec(),
{
    reveal_with_fuel(pop_count, 18);
    assert(1u16 << 0u16 == 1u16 && 1u16 << 1u16 == 2u16 && 1u16 << 2u16 == 4u16
        && 1u16 << 3u16 == 8u16 && 1u16 << 4u16 == 16u16 && 1u16 << 5u16 == 32u16
        && 1u16 << 6u16 == 64u16 && 1u16 << 7u16 == 128u16 && 1u16 << 8u16 == 256u16
        && 1u16 << 9u16 == 512u16 && 1u16 << 10u16 == 1024u16 && 1u16 << 11u16 == 2048u16
        && 1u16 << 12u16 == 4096u16 && 1u16 << 13u16 == 8192u16 && 1u16 << 14u16 == 16384u16
        && 1u16 << 15u16 == 32768u16) by (bit_vector);
}

/// Any index outside `[0, 16)` maps to the zero flag.
pub proof fn lemma_from_index_out_of_range(i: int)
    requires
        !(0 <= i < 16),
    ensures
        Win::flag_of_index(i) == 0u16,
{
}

} // verus!
