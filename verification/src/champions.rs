//! Champion dispatch: the supported champions and the lookup from a champion
//! name to its damage profile.

use vstd::prelude::*;

use crate::active_player::AbilityRanks;
use crate::data::ChampionStats;
use crate::text::str_eq;

pub mod orianna;
pub mod ahri;

verus! {

/// Largest ability power or attack damage the damage tables accept, in
/// milli-units. Keeps every raw-damage computation inside `u64`.
pub const CHAMPION_STAT_MAX: u64 = 1_000_000_000;

/// Largest rotation length the damage calculators accept.
pub const ROTATION_MAX: usize = 10_000;

/// The tracked player's champion, resolved once at startup. Champions
/// without a damage profile fall back to `Unsupported`, whose burst is zero.
pub enum ActiveChampion {
    Orianna(orianna::Orianna),
    Unsupported,
}

/// The burst of one full rotation for the resolved champion; zero for an
/// unsupported champion.
pub open spec fn champion_damage_spec(
    champion: &ActiveChampion,
    stats: ChampionStats,
    level: int,
    ranks: AbilityRanks,
    rotation: Seq<char>,
    armor: int,
    magic_resist: int,
) -> int {
    match champion {
        ActiveChampion::Orianna(_) => orianna::rotation_damage_spec(
            orianna::raw_damage_spec(stats, level, ranks),
            rotation,
            armor,
            magic_resist,
        ),
        ActiveChampion::Unsupported => 0,
    }
}

/// Resolves a champion name to its damage profile.
pub fn match_champion(name: &str) -> (champion: ActiveChampion)
    ensures
        name@ == "Orianna"@ ==> (champion matches ActiveChampion::Orianna(o) && o.wf()),
        name@ != "Orianna"@ ==> champion is Unsupported,
{
    if str_eq(name, "Orianna") {
        ActiveChampion::Orianna(orianna::Orianna::build())
    } else {
        ActiveChampion::Unsupported
    }
}

impl ActiveChampion {
    /// Profiles produced by `match_champion` are well formed.
    pub open spec fn wf(&self) -> bool {
        match self {
            ActiveChampion::Orianna(o) => o.wf(),
            ActiveChampion::Unsupported => true,
        }
    }

    /// One burst estimate: the summed mitigated rotation damage against one
    /// opponent's resistances, in milli-units.
    pub fn calculate_damage(
        &self,
        champion_stats: &ChampionStats,
        level: i64,
        ability: &str,
        abilityranks: &AbilityRanks,
        resistance: crate::dmg::Resistance,
    ) -> (damage: u64)
        requires
            self.wf(),
            champion_stats.ability_power <= CHAMPION_STAT_MAX,
            champion_stats.attack_damage <= CHAMPION_STAT_MAX,
            0 <= abilityranks.q_rank <= 5,
            0 <= abilityranks.w_rank <= 5,
            0 <= abilityranks.e_rank <= 5,
            1 <= level <= 18,
            0 <= abilityranks.r_rank <= 3,
            ability@.len() <= ROTATION_MAX,
            resistance.armor <= crate::dmg::RESIST_MAX,
            resistance.magic_resist <= crate::dmg::RESIST_MAX,
        ensures
            damage == champion_damage_spec(
                self,
                *champion_stats,
                level as int,
                *abilityranks,
                ability@,
                resistance.armor as int,
                resistance.magic_resist as int,
            ),
    {
        match self {
            ActiveChampion::Orianna(o) => o.calculate_damage(
                champion_stats,
                level,
                ability,
                abilityranks,
                resistance,
            ),
            ActiveChampion::Unsupported => 0,
        }
    }
}

} // verus!
