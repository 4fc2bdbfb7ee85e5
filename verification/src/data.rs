//! The decoded live-game payload: one poll result, immutable after
//! construction and discarded after the tick that consumes it.
//!
//! Fractional quantities of the source are carried in fixed-point form:
//! times in milliseconds, stat values in milli-units (thousandths).

use vstd::prelude::*;

verus! {

/// One decoded poll result. Sections the source has not sent yet are `None`.
#[derive(Clone, Debug)]
pub struct LiveGame {
    pub active_player: Option<ActivePlayer>,
    pub all_players: Option<Vec<AllPlayer>>,
    pub events: Option<Events>,
    pub game_data: Option<GameData>,
    pub http_status: Option<i64>,
}

/// The tracked player.
#[derive(Clone, Debug)]
pub struct ActivePlayer {
    pub abilities: Abilities,
    pub champion_stats: ChampionStats,
    /// Cumulative gold, in milli-units.
    pub current_gold: u64,
    pub full_runes: FullRunes,
    pub level: i64,
    pub summoner_name: String,
}

#[derive(Clone, Debug)]
pub struct Abilities {
    pub q: Ability,
    pub w: Ability,
    pub e: Ability,
    pub r: Ability,
    pub passive: Ability,
}

#[derive(Clone, Debug)]
pub struct Ability {
    pub ability_level: Option<i64>,
    pub display_name: String,
    pub id: Option<String>,
    pub raw_description: String,
    pub raw_display_name: String,
}

/// The stat lines the damage calculator reads, in milli-units.
#[derive(Clone, Copy, PartialEq, Eq, Structural, Debug)]
pub struct ChampionStats {
    pub ability_power: u64,
    pub attack_damage: u64,
}

#[derive(Clone, Debug)]
pub struct FullRunes {
    pub general_runes: Vec<Keystone>,
    pub keystone: Keystone,
    pub primary_rune_tree: Keystone,
    pub secondary_rune_tree: Keystone,
    pub stat_runes: Vec<StatRune>,
}

#[derive(Clone, Debug)]
pub struct Keystone {
    pub display_name: String,
    pub id: i64,
    pub raw_description: String,
    pub raw_display_name: String,
}

#[derive(Clone, Debug)]
pub struct StatRune {
    pub id: i64,
    pub raw_description: String,
}

/// One roster entry.
#[derive(Clone, Debug)]
pub struct AllPlayer {
    pub champion_name: String,
    pub is_bot: bool,
    pub is_dead: bool,
    pub items: Vec<Item>,
    pub level: i64,
    pub position: String,
    pub raw_champion_name: String,
    /// Respawn timer, in milliseconds.
    pub respawn_timer: u64,
    pub runes: Runes,
    pub scores: Scores,
    pub skin_id: i64,
    pub summoner_name: String,
    pub summoner_spells: SummonerSpells,
    pub team: String,
}

#[derive(Clone, Debug)]
pub struct Item {
    pub can_use: bool,
    pub consumable: bool,
    pub count: i64,
    pub display_name: String,
    pub item_id: i64,
    pub price: i64,
    pub raw_description: String,
    pub raw_display_name: String,
    pub slot: i64,
}

#[derive(Clone, Debug)]
pub struct Runes {
    pub keystone: Keystone,
    pub primary_rune_tree: Keystone,
    pub secondary_rune_tree: Keystone,
}

#[derive(Clone, Debug)]
pub struct Scores {
    pub assists: i64,
    pub creep_score: i64,
    pub deaths: i64,
    pub kills: i64,
    /// Vision score, in milli-units.
    pub ward_score: u64,
}

#[derive(Clone, Debug)]
pub struct SummonerSpells {
    pub summoner_spell_one: Ability,
    pub summoner_spell_two: Ability,
}

#[derive(Clone, Debug)]
pub struct Events {
    pub events: Vec<Event>,
}

#[derive(Clone, Debug)]
pub struct Event {
    pub event_id: i64,
    pub event_name: Option<String>,
    /// Event time, in milliseconds.
    pub event_time: i64,
}

#[derive(Clone, Debug)]
pub struct GameData {
    pub game_mode: String,
    /// Game clock, in milliseconds.
    pub game_time: i64,
    pub map_name: String,
    pub map_number: i64,
    pub map_terrain: String,
}

} // verus!
