//! Difficulty levels and the leading-zero target they stand for.

use vstd::prelude::*;
use crate::text::{has_prefix, repeated, starts_with, zeros};

verus! {

/// An ordinal difficulty: the number of leading zero hex digits that a hash
/// must show to be accepted.
#[derive(Debug, Clone, Copy)]
pub struct Difficulty {
    pub value: u32,
}

/// The target prefix of a level: `level` zero characters.
pub open spec fn target_prefix(level: nat) -> Seq<char> {
    repeated('0', level)
}

/// The level that follows `level` once a block took `observed` time units
/// against a goal of `target`: one more when the block came early, one less
/// (never below 1) when it came late, the same otherwise. A level at the top of
/// its range stays there.
pub open spec fn adjusted_level(level: u32, observed: u64, target: u64) -> u32 {
    if observed < target {
        if level < u32::MAX {
            (level + 1) as u32
        } else {
            level
        }
    } else if observed > target && level > 1 {
        (level - 1) as u32
    } else {
        level
    }
}

/// Adjustment is monotonic: a block that came early never lowers the level,
/// and one that came late never raises it, nor does it take a level that
/// stands at 1 or above below 1.
pub proof fn adjustment_is_monotonic(level: u32, observed: u64, target: u64)
    ensures
        observed < target ==> adjusted_level(level, observed, target) >= level,
        observed > target ==> adjusted_level(level, observed, target) <= level,
        observed > target && level >= 1 ==> adjusted_level(level, observed, target) >= 1,
        observed == target ==> adjusted_level(level, observed, target) == level,
{
}

/// A target of no zeros is met by every hash.
pub proof fn zero_difficulty_accepts_all(hash: Seq<char>)
    ensures
        has_prefix(hash, target_prefix(0)),
{
    assert(hash.subrange(0, 0) =~= target_prefix(0));
}

/// The target of any level consists of exactly that many zero characters, and
/// a hash meets the level exactly when its first characters, that many, are
/// all zeros.
pub proof fn target_prefix_is_zeros(level: nat, hash: Seq<char>)
    ensures
        target_prefix(level).len() == level,
        forall|i: int| 0 <= i < level ==> target_prefix(level)[i] == '0',
        has_prefix(hash, target_prefix(level)) <==> (level <= hash.len() && forall|i: int|
            0 <= i < level ==> hash[i] == '0'),
{
    if level <= hash.len() {
        if forall|i: int| 0 <= i < level ==> hash[i] == '0' {
            assert(hash.subrange(0, level as int) =~= target_prefix(level));
        }
        if has_prefix(hash, target_prefix(level)) {
            assert forall|i: int| 0 <= i < level implies hash[i] == '0' by {
                assert(hash.subrange(0, level as int)[i] == target_prefix(level)[i]);
            }
        }
    }
}

impl Difficulty {
    pub fn new(value: u32) -> (d: Self)
        ensures
            d.value == value,
    {
        Difficulty { value }
    }

    /// The target prefix as text, e.g. `"0000"` at level 4.
    pub fn target_string(&self) -> (s: String)
        ensures
            s@ == target_prefix(self.value as nat),
            s@.len() == self.value,
            forall|i: int| 0 <= i < s@.len() ==> s@[i] == '0',
    {
        zeros(self.value as usize)
    }

    /// Whether `hash` meets this difficulty: it begins with the target prefix.
    /// The comparison is by character, so upper-case or other digits never
    /// stand in for a zero.
    pub fn is_valid_hash(&self, hash: &str) -> (ok: bool)
        ensures
            ok == has_prefix(hash@, target_prefix(self.value as nat)),
    {
        let target = self.target_string();
        starts_with(hash, target.as_str())
    }

    /// The difficulty for the next block, given how long the last one took and
    /// how long it should have taken (both in the same unit).
    pub fn adjust(&self, last_block_time: u64, target_time: u64) -> (next: Difficulty)
        ensures
            next.value == adjusted_level(self.value, last_block_time, target_time),
            last_block_time < target_time ==> next.value >= self.value,
            last_block_time > target_time ==> next.value <= self.value,
            last_block_time > target_time && self.value >= 1 ==> next.value >= 1,
            last_block_time == target_time ==> next.value == self.value,
    {
        let mut new_value = self.value;
        if last_block_time < target_time {
            if new_value < u32::MAX {
                new_value = new_value + 1;
            }
        } else if last_block_time > target_time && new_value > 1 {
            new_value = new_value - 1;
        }
        Difficulty { value: new_value }
    }
}

} // verus!
