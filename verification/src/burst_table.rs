//! The per-tick burst table: one row per opponent with the level-scaled
//! resistances applied to the tracked champion's full rotation.

use vstd::prelude::*;

use crate::active_player::AbilityRanks;
use crate::champions::{champion_damage_spec, ActiveChampion, ROTATION_MAX, CHAMPION_STAT_MAX};
use crate::data::{Abilities, LiveGame};
use crate::dmg::Resistance;
use crate::resistance::{
    opponent_scalable, scaled_armor_spec, scaled_magic_resist_spec, ChampionDb,
    OpponantResistances,
};
use crate::teams::{active_team, opponents_spec, roster_has, OpponantTeam};

verus! {

/// The tracked player's current ability ranks, as the payload reports them.
pub open spec fn ability_ranks_spec(abilities: Abilities) -> AbilityRanks {
    AbilityRanks {
        q_rank: abilities.q.ability_level->0,
        w_rank: abilities.w.ability_level->0,
        e_rank: abilities.e.ability_level->0,
        r_rank: abilities.r.ability_level->0,
    }
}

/// The payload sections and bounds one burst-table build relies on: both
/// payload sections present, every ability rank inside its table, and the
/// player's stats inside the calculator's fixed-point range.
pub open spec fn payload_ready(data: LiveGame) -> bool {
    &&& data.active_player is Some
    &&& data.all_players is Some
    &&& {
        let ap = data.active_player->0;
        &&& ap.abilities.q.ability_level is Some
        &&& ap.abilities.w.ability_level is Some
        &&& ap.abilities.e.ability_level is Some
        &&& ap.abilities.r.ability_level is Some
        &&& 0 <= ap.abilities.q.ability_level->0 <= 5
        &&& 0 <= ap.abilities.w.ability_level->0 <= 5
        &&& 0 <= ap.abilities.e.ability_level->0 <= 5
        &&& 0 <= ap.abilities.r.ability_level->0 <= 3
        &&& 1 <= ap.level <= 18
        &&& ap.champion_stats.ability_power <= CHAMPION_STAT_MAX
        &&& ap.champion_stats.attack_damage <= CHAMPION_STAT_MAX
    }
}

/// One render-ready burst row: the opponent's sanitized champion name, its
/// level, and the burst estimate floored to whole units.
#[derive(Clone, Debug)]
pub struct BurstRow {
    pub champion_name: String,
    pub level: i64,
    pub burst_damage: u64,
}

/// Everything one burst-table build reads: the resolved champion, the tick's
/// payload, the champion database, and the configured rotation.
pub struct BurstTable<'a> {
    pub champion: &'a ActiveChampion,
    pub data: &'a LiveGame,
    pub champion_db: &'a ChampionDb,
    pub rotation: &'a str,
}

impl BurstTable<'_> {
    /// Builds one row per opponent, in resolution order: the sanitized
    /// champion name, the level, and the mitigated rotation damage floored
    /// to whole units. Yields no rows when the tracked player is missing
    /// from the roster.
    pub fn build_burst_table_items(self) -> (rows: Vec<BurstRow>)
        requires
            self.champion.wf(),
            payload_ready(*self.data),
            self.rotation@.len() <= ROTATION_MAX,
            self.champion_db.wf(),
            forall|i: int|
                0 <= i < opponents_spec(
                    self.data.all_players->0@,
                    active_team(self.data.all_players->0@, self.data.active_player->0.summoner_name@),
                ).len() ==> opponent_scalable(
                    self.champion_db.entries@,
                    #[trigger] opponents_spec(
                        self.data.all_players->0@,
                        active_team(
                            self.data.all_players->0@,
                            self.data.active_player->0.summoner_name@,
                        ),
                    )[i],
                ),
        ensures
            ({
                let players = self.data.all_players->0@;
                let ap = self.data.active_player->0;
                let model = opponents_spec(players, active_team(players, ap.summoner_name@));
                &&& roster_has(players, ap.summoner_name@) ==> {
                    &&& rows@.len() == model.len()
                    &&& forall|i: int|
                        0 <= i < model.len() ==> {
                            &&& (#[trigger] rows@[i]).champion_name@ == model[i].0
                            &&& rows@[i].level == model[i].1
                            &&& rows@[i].burst_damage == champion_damage_spec(
                                self.champion,
                                ap.champion_stats,
                                ap.level as int,
                                ability_ranks_spec(ap.abilities),
                                self.rotation@,
                                scaled_armor_spec(self.champion_db.entries@, model[i]),
                                scaled_magic_resist_spec(self.champion_db.entries@, model[i]),
                            ) / 1000
                        }
                }
                &&& !roster_has(players, ap.summoner_name@) ==> rows@.len() == 0
            }),
    {
        let active_player = self.data.active_player.as_ref().unwrap();
        let all_players = self.data.all_players.as_ref().unwrap();
        let ability_ranks = AbilityRanks::new(
            active_player.abilities.q.ability_level.unwrap(),
            active_player.abilities.w.ability_level.unwrap(),
            active_player.abilities.e.ability_level.unwrap(),
            active_player.abilities.r.ability_level.unwrap(),
        );
        let opponant_resistances = OpponantResistances::new(
            active_player,
            all_players,
            self.champion_db,
        );
        let opponant_team = OpponantTeam::new(active_player, all_players);

        let ghost players = self.data.all_players->0@;
        let ghost ap = self.data.active_player->0;
        let ghost model = opponents_spec(players, active_team(players, ap.summoner_name@));

        let len = opponant_team.opponants.len();
        let mut rows: Vec<BurstRow> = Vec::new();
        let mut i: usize = 0;
        while i < len
            invariant
                i <= len,
                len == opponant_team.opponants@.len(),
                self.champion.wf(),
                payload_ready(*self.data),
                self.rotation@.len() <= ROTATION_MAX,
                self.champion_db.wf(),
                players == self.data.all_players->0@,
                ap == self.data.active_player->0,
                *active_player == ap,
                model == opponents_spec(players, active_team(players, ap.summoner_name@)),
                ability_ranks == ability_ranks_spec(ap.abilities),
                rows@.len() == i,
                roster_has(players, ap.summoner_name@) ==> {
                    &&& crate::teams::opponents_match(opponant_team.opponants@, model)
                    &&& opponant_resistances.armor@.len() == model.len()
                    &&& opponant_resistances.magic_resist@.len() == model.len()
                    &&& forall|k: int|
                        0 <= k < model.len() ==> #[trigger] opponant_resistances.armor@[k]
                            == scaled_armor_spec(self.champion_db.entries@, model[k])
                            && opponant_resistances.magic_resist@[k] == scaled_magic_resist_spec(
                            self.champion_db.entries@,
                            model[k],
                        ) && opponant_resistances.armor@[k] <= crate::dmg::RESIST_MAX
                            && opponant_resistances.magic_resist@[k] <= crate::dmg::RESIST_MAX
                    &&& forall|k: int|
                        0 <= k < i ==> {
                            &&& (#[trigger] rows@[k]).champion_name@ == model[k].0
                            &&& rows@[k].level == model[k].1
                            &&& rows@[k].burst_damage == champion_damage_spec(
                                self.champion,
                                ap.champion_stats,
                                ap.level as int,
                                ability_ranks_spec(ap.abilities),
                                self.rotation@,
                                scaled_armor_spec(self.champion_db.entries@, model[k]),
                                scaled_magic_resist_spec(self.champion_db.entries@, model[k]),
                            ) / 1000
                        }
                },
                !roster_has(players, ap.summoner_name@) ==> len == 0,
            decreases len - i,
        {
            let resistance = Resistance::new(
                opponant_resistances.armor[i],
                opponant_resistances.magic_resist[i],
            );
            let burst_dmg = self.champion.calculate_damage(
                &active_player.champion_stats,
                active_player.level,
                self.rotation,
                &ability_ranks,
                resistance,
            );
            rows.push(
                BurstRow {
                    champion_name: opponant_team.opponants[i].0.clone(),
                    level: opponant_team.opponants[i].1,
                    burst_damage: burst_dmg / 1000,
                },
            );
            i = i + 1;
        }
        rows
    }
}

} // verus!
