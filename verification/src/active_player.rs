//! The tracked player's current ability ranks, read fresh each tick.

use vstd::prelude::*;

verus! {

/// Current rank of each of the four abilities; rank 0 means unlearned.
#[derive(Clone, Copy, PartialEq, Eq, Structural, Debug, Default)]
pub struct AbilityRanks {
    pub q_rank: i64,
    pub w_rank: i64,
    pub e_rank: i64,
    pub r_rank: i64,
}

impl AbilityRanks {
    pub fn new(q_rank: i64, w_rank: i64, e_rank: i64, r_rank: i64) -> (ranks: AbilityRanks)
        ensures
            ranks.q_rank == q_rank,
            ranks.w_rank == w_rank,
            ranks.e_rank == e_rank,
            ranks.r_rank == r_rank,
    {
        AbilityRanks { q_rank, w_rank, e_rank, r_rank }
    }
}

} // verus!
