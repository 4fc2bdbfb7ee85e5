//! Orianna's damage profile: per-ability base damage by rank, ability-power
//! scaling, and a level-bracketed passive.
//!
//! Damage values are in milli-units. The trailing entry of each ability
//! table is that ability's scaling coefficient, in thousandths of the
//! scaling stat, kept alongside its base damages.

use vstd::prelude::*;
use vstd::multiset::Multiset;

use crate::active_player::AbilityRanks;
use crate::champions::{CHAMPION_STAT_MAX, ROTATION_MAX};
use crate::data::ChampionStats;
use crate::dmg::{
    mitigate_damage_by_armor, mitigate_damage_by_magic_resist, mitigate_spec, Resistance,
    RESIST_MAX,
};

verus! {

/// Base damage of Q by rank (indices 0–5) with the ability-power
/// coefficient at index 6.
pub open spec fn q_table() -> Seq<u64> {
    seq![0u64, 60000, 90000, 120000, 150000, 180000, 500]
}

/// Base damage of W by rank (indices 0–5) with the ability-power
/// coefficient at index 6.
pub open spec fn w_table() -> Seq<u64> {
    seq![0u64, 60000, 105000, 150000, 195000, 240000, 700]
}

/// Base damage of E by rank (indices 0–5) with the ability-power
/// coefficient at index 6.
pub open spec fn e_table() -> Seq<u64> {
    seq![0u64, 60000, 90000, 120000, 150000, 180000, 300]
}

/// Base damage of R by rank (indices 0–3) with the ability-power
/// coefficient at index 4.
pub open spec fn r_table() -> Seq<u64> {
    seq![0u64, 200000, 275000, 350000, 800]
}

/// Passive damage by level bracket (indices 0–5, one per three levels) with
/// two trailing scaling coefficients.
pub open spec fn p_table() -> Seq<u64> {
    seq![10000u64, 18000, 26000, 34000, 42000, 50000, 150, 1200]
}

/// The per-champion ability damage tables.
#[derive(Clone, Debug)]
pub struct Stats {
    pub q_dmg: Vec<u64>,
    pub w_dmg: Vec<u64>,
    pub e_dmg: Vec<u64>,
    pub r_dmg: Vec<u64>,
    pub p_dmg: Vec<u64>,
}

impl Stats {
    fn new(
        q_dmg: Vec<u64>,
        w_dmg: Vec<u64>,
        e_dmg: Vec<u64>,
        r_dmg: Vec<u64>,
        p_dmg: Vec<u64>,
    ) -> (stats: Stats)
        ensures
            stats.q_dmg == q_dmg,
            stats.w_dmg == w_dmg,
            stats.e_dmg == e_dmg,
            stats.r_dmg == r_dmg,
            stats.p_dmg == p_dmg,
    {
        Stats { q_dmg, w_dmg, e_dmg, r_dmg, p_dmg }
    }
}

/// Orianna's damage profile.
#[derive(Clone, Debug)]
pub struct Orianna {
    pub name: String,
    pub stats: Stats,
}

/// The raw (unmitigated) damage of each rotation entry at the player's
/// current ranks and stats, in milli-units.
#[derive(Clone, Copy, PartialEq, Eq, Structural, Debug)]
pub struct RawDamage {
    pub q: u64,
    pub w: u64,
    pub e: u64,
    pub r: u64,
    pub p: u64,
    pub aa: u64,
}

/// The raw damage of each entry: base damage at the ability's rank plus the
/// scaled ability power, the passive at the level bracket, and the attack
/// damage for the basic attack.
pub open spec fn raw_damage_spec(stats: ChampionStats, level: int, ranks: AbilityRanks) -> RawDamage {
    RawDamage {
        q: (q_table()[ranks.q_rank as int] + (q_table()[6] * stats.ability_power) / 1000) as u64,
        w: (w_table()[ranks.w_rank as int] + (w_table()[6] * stats.ability_power) / 1000) as u64,
        e: (e_table()[ranks.e_rank as int] + (e_table()[6] * stats.ability_power) / 1000) as u64,
        r: (r_table()[ranks.r_rank as int] + (r_table()[4] * stats.ability_power) / 1000) as u64,
        p: p_table()[(level - 1) / 3],
        aa: stats.attack_damage,
    }
}

/// Mitigated damage of a single rotation tag: magic abilities against magic
/// resist, the basic attack against armor, anything unrecognized zero.
pub open spec fn tag_damage_spec(rd: RawDamage, tag: char, armor: int, magic_resist: int) -> int {
    if tag == 'Q' {
        mitigate_spec(rd.q as int, magic_resist)
    } else if tag == 'W' {
        mitigate_spec(rd.w as int, magic_resist)
    } else if tag == 'E' {
        mitigate_spec(rd.e as int, magic_resist)
    } else if tag == 'R' {
        mitigate_spec(rd.r as int, magic_resist)
    } else if tag == 'P' {
        mitigate_spec(rd.p as int, magic_resist)
    } else if tag == 'A' {
        mitigate_spec(rd.aa as int, armor)
    } else {
        0
    }
}

/// The summed mitigated damage of a whole rotation; order never affects the
/// sum.
pub open spec fn rotation_damage_spec(
    rd: RawDamage,
    rotation: Seq<char>,
    armor: int,
    magic_resist: int,
) -> int
    decreases rotation.len(),
{
    if rotation.len() == 0 {
        0
    } else {
        rotation_damage_spec(rd, rotation.drop_last(), armor, magic_resist) + tag_damage_spec(
            rd,
            rotation.last(),
            armor,
            magic_resist,
        )
    }
}

/// A rotation's damage is determined by how often each recognized tag
/// occurs: the rotation is a multiset of instructions, not a timing
/// simulation.
pub proof fn lemma_rotation_damage_by_counts(
    rd: RawDamage,
    rotation: Seq<char>,
    armor: int,
    magic_resist: int,
)
    ensures
        rotation_damage_spec(rd, rotation, armor, magic_resist) == rotation.to_multiset().count('Q')
            * tag_damage_spec(rd, 'Q', armor, magic_resist) + rotation.to_multiset().count('W')
            * tag_damage_spec(rd, 'W', armor, magic_resist) + rotation.to_multiset().count('E')
            * tag_damage_spec(rd, 'E', armor, magic_resist) + rotation.to_multiset().count('R')
            * tag_damage_spec(rd, 'R', armor, magic_resist) + rotation.to_multiset().count('P')
            * tag_damage_spec(rd, 'P', armor, magic_resist) + rotation.to_multiset().count('A')
            * tag_damage_spec(rd, 'A', armor, magic_resist),
    decreases rotation.len(),
{
    broadcast use vstd::seq_lib::group_to_multiset_ensures;
    broadcast use vstd::multiset::group_multiset_axioms;

    if rotation.len() == 0 {
        assert(rotation.to_multiset() =~= Multiset::<char>::empty());
    } else {
        let prefix = rotation.drop_last();
        let last = rotation.last();
        lemma_rotation_damage_by_counts(rd, prefix, armor, magic_resist);
        assert(rotation =~= prefix.push(last));
        assert(rotation.to_multiset() =~= prefix.to_multiset().insert(last));
        let m = prefix.to_multiset();
        lemma_mul_succ(m.count('Q') as int, tag_damage_spec(rd, 'Q', armor, magic_resist));
        lemma_mul_succ(m.count('W') as int, tag_damage_spec(rd, 'W', armor, magic_resist));
        lemma_mul_succ(m.count('E') as int, tag_damage_spec(rd, 'E', armor, magic_resist));
        lemma_mul_succ(m.count('R') as int, tag_damage_spec(rd, 'R', armor, magic_resist));
        lemma_mul_succ(m.count('P') as int, tag_damage_spec(rd, 'P', armor, magic_resist));
        lemma_mul_succ(m.count('A') as int, tag_damage_spec(rd, 'A', armor, magic_resist));
    }
}

proof fn lemma_mul_succ(c: int, d: int)
    ensures
        (c + 1) * d == c * d + d,
{
    assert((c + 1) * d == c * d + d) by (nonlinear_arith);
}

/// Summing a rotation left to right never depends on the order of its
/// tags: two rotations with the same tag counts burst for the same total.
pub proof fn lemma_rotation_order_irrelevant(
    rd: RawDamage,
    rotation_a: Seq<char>,
    rotation_b: Seq<char>,
    armor: int,
    magic_resist: int,
)
    requires
        rotation_a.to_multiset() == rotation_b.to_multiset(),
    ensures
        rotation_damage_spec(rd, rotation_a, armor, magic_resist) == rotation_damage_spec(
            rd,
            rotation_b,
            armor,
            magic_resist,
        ),
{
    lemma_rotation_damage_by_counts(rd, rotation_a, armor, magic_resist);
    lemma_rotation_damage_by_counts(rd, rotation_b, armor, magic_resist);
}

/// An unlearned ability (rank 0) indexes the zero-damage table entry: its
/// raw damage is the scaled ability power alone, never an out-of-table
/// value.
pub proof fn lemma_rank_zero_raw_damage(stats: ChampionStats, level: int, ranks: AbilityRanks)
    requires
        stats.ability_power <= CHAMPION_STAT_MAX,
        ranks.q_rank == 0,
        ranks.w_rank == 0,
        ranks.e_rank == 0,
        ranks.r_rank == 0,
    ensures
        raw_damage_spec(stats, level, ranks).q == (500 * stats.ability_power) / 1000,
        raw_damage_spec(stats, level, ranks).w == (700 * stats.ability_power) / 1000,
        raw_damage_spec(stats, level, ranks).e == (300 * stats.ability_power) / 1000,
        raw_damage_spec(stats, level, ranks).r == (800 * stats.ability_power) / 1000,
{
}

impl Orianna {
    /// The damage tables hold exactly the published values.
    pub open spec fn wf(&self) -> bool {
        &&& self.name@ == "Orianna"@
        &&& self.stats.q_dmg@ == q_table()
        &&& self.stats.w_dmg@ == w_table()
        &&& self.stats.e_dmg@ == e_table()
        &&& self.stats.r_dmg@ == r_table()
        &&& self.stats.p_dmg@ == p_table()
    }

    fn new(name: String, stats: Stats) -> (orianna: Orianna)
        ensures
            orianna.name == name,
            orianna.stats == stats,
    {
        Orianna { name, stats }
    }

    /// Builds the profile with its published damage tables.
    pub fn build() -> (orianna: Orianna)
        ensures
            orianna.wf(),
    {
        let orianna = Orianna::new(
            String::from_str("Orianna"),
            Stats::new(
                vec![0u64, 60000, 90000, 120000, 150000, 180000, 500],
                vec![0u64, 60000, 105000, 150000, 195000, 240000, 700],
                vec![0u64, 60000, 90000, 120000, 150000, 180000, 300],
                vec![0u64, 200000, 275000, 350000, 800],
                vec![10000u64, 18000, 26000, 34000, 42000, 50000, 150, 1200],
            ),
        );
        proof {
            assert(orianna.stats.q_dmg@ =~= q_table());
            assert(orianna.stats.w_dmg@ =~= w_table());
            assert(orianna.stats.e_dmg@ =~= e_table());
            assert(orianna.stats.r_dmg@ =~= r_table());
            assert(orianna.stats.p_dmg@ =~= p_table());
        }
        orianna
    }

    /// Looks each ability's base damage up at its current rank and applies
    /// the ability-power scaling. A rank of 0 (unlearned) indexes the
    /// zero-damage entry.
    pub fn calculate_rd(
        &self,
        champion_stats: &ChampionStats,
        level: i64,
        abilityranks: &AbilityRanks,
    ) -> (rd: RawDamage)
        requires
            self.wf(),
            champion_stats.ability_power <= CHAMPION_STAT_MAX,
            champion_stats.attack_damage <= CHAMPION_STAT_MAX,
            0 <= abilityranks.q_rank <= 5,
            0 <= abilityranks.w_rank <= 5,
            0 <= abilityranks.e_rank <= 5,
            0 <= abilityranks.r_rank <= 3,
            1 <= level <= 18,
        ensures
            rd == raw_damage_spec(*champion_stats, level as int, *abilityranks),
            rd.q <= 2 * CHAMPION_STAT_MAX,
            rd.w <= 2 * CHAMPION_STAT_MAX,
            rd.e <= 2 * CHAMPION_STAT_MAX,
            rd.r <= 2 * CHAMPION_STAT_MAX,
            rd.p <= 2 * CHAMPION_STAT_MAX,
            rd.aa <= 2 * CHAMPION_STAT_MAX,
    {
        let ap = champion_stats.ability_power;
        let ad = champion_stats.attack_damage;
        RawDamage {
            q: self.stats.q_dmg[abilityranks.q_rank as usize] + (self.stats.q_dmg[6] * ap) / 1000,
            w: self.stats.w_dmg[abilityranks.w_rank as usize] + (self.stats.w_dmg[6] * ap) / 1000,
            e: self.stats.e_dmg[abilityranks.e_rank as usize] + (self.stats.e_dmg[6] * ap) / 1000,
            r: self.stats.r_dmg[abilityranks.r_rank as usize] + (self.stats.r_dmg[4] * ap) / 1000,
            p: self.stats.p_dmg[((level - 1) / 3) as usize],
            aa: ad,
        }
    }

    /// One burst estimate: walks the rotation left to right, mitigating each
    /// entry against the matching resistance, and sums the contributions.
    /// An unrecognized tag contributes nothing.
    pub fn calculate_damage(
        &self,
        champion_stats: &ChampionStats,
        level: i64,
        ability: &str,
        abilityranks: &AbilityRanks,
        resistance: Resistance,
    ) -> (damage: u64)
        requires
            self.wf(),
            champion_stats.ability_power <= CHAMPION_STAT_MAX,
            champion_stats.attack_damage <= CHAMPION_STAT_MAX,
            0 <= abilityranks.q_rank <= 5,
            0 <= abilityranks.w_rank <= 5,
            0 <= abilityranks.e_rank <= 5,
            0 <= abilityranks.r_rank <= 3,
            1 <= level <= 18,
            ability@.len() <= ROTATION_MAX,
            resistance.armor <= RESIST_MAX,
            resistance.magic_resist <= RESIST_MAX,
        ensures
            damage == rotation_damage_spec(
                raw_damage_spec(*champion_stats, level as int, *abilityranks),
                ability@,
                resistance.armor as int,
                resistance.magic_resist as int,
            ),
    {
        let rd = self.calculate_rd(champion_stats, level, abilityranks);
        let len = ability.unicode_len();
        let mut damage: u64 = 0;
        let mut i: usize = 0;
        while i < len
            invariant
                i <= len,
                len == ability@.len(),
                len <= ROTATION_MAX,
                rd == raw_damage_spec(*champion_stats, level as int, *abilityranks),
                rd.q <= 2 * CHAMPION_STAT_MAX,
                rd.w <= 2 * CHAMPION_STAT_MAX,
                rd.e <= 2 * CHAMPION_STAT_MAX,
                rd.r <= 2 * CHAMPION_STAT_MAX,
                rd.p <= 2 * CHAMPION_STAT_MAX,
                rd.aa <= 2 * CHAMPION_STAT_MAX,
                resistance.armor <= RESIST_MAX,
                resistance.magic_resist <= RESIST_MAX,
                damage <= i * 2_000_000_000,
                damage == rotation_damage_spec(
                    rd,
                    ability@.subrange(0, i as int),
                    resistance.armor as int,
                    resistance.magic_resist as int,
                ),
            decreases len - i,
        {
            let tag = ability.get_char(i);
            let contribution: u64 = match tag {
                'Q' => mitigate_damage_by_magic_resist(rd.q, resistance.magic_resist),
                'W' => mitigate_damage_by_magic_resist(rd.w, resistance.magic_resist),
                'E' => mitigate_damage_by_magic_resist(rd.e, resistance.magic_resist),
                'R' => mitigate_damage_by_magic_resist(rd.r, resistance.magic_resist),
                'P' => mitigate_damage_by_magic_resist(rd.p, resistance.magic_resist),
                'A' => mitigate_damage_by_armor(rd.aa, resistance.armor),
                _ => 0,
            };
            damage = damage + contribution;
            proof {
                assert(ability@.subrange(0, i + 1).drop_last() =~= ability@.subrange(0, i as int));
                assert(ability@.subrange(0, i + 1).last() == ability@[i as int]);
            }
            i = i + 1;
        }
        proof {
            assert(ability@.subrange(0, len as int) =~= ability@);
        }
        damage
    }
}

} // verus!
