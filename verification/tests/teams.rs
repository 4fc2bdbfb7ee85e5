//! Tests for opponent resolution, name normalization, resistance scaling,
//! and the end-to-end burst table.

use lolburst::burst_table::BurstTable;
use lolburst::champions::match_champion;
use lolburst::data::{
    Abilities, Ability, ActivePlayer, AllPlayer, ChampionStats, FullRunes, GameData, Keystone,
    LiveGame, Runes, Scores, SummonerSpells,
};
use lolburst::resistance::{
    correct_name, scale_resistance, ChampionDb, DefenseEntry, OpponantResistances,
};
use lolburst::teams::{get_active_player, sanitize_champion_name, OpponantTeam};

fn ability(level: Option<i64>) -> Ability {
    Ability {
        ability_level: level,
        display_name: String::new(),
        id: None,
        raw_description: String::new(),
        raw_display_name: String::new(),
    }
}

fn keystone() -> Keystone {
    Keystone {
        display_name: String::new(),
        id: 0,
        raw_description: String::new(),
        raw_display_name: String::new(),
    }
}

fn active_player(name: &str, ability_power: u64, attack_damage: u64, level: i64) -> ActivePlayer {
    ActivePlayer {
        abilities: Abilities {
            q: ability(Some(1)),
            w: ability(Some(1)),
            e: ability(Some(1)),
            r: ability(Some(1)),
            passive: ability(None),
        },
        champion_stats: ChampionStats { ability_power, attack_damage },
        current_gold: 500_000,
        full_runes: FullRunes {
            general_runes: vec![],
            keystone: keystone(),
            primary_rune_tree: keystone(),
            secondary_rune_tree: keystone(),
            stat_runes: vec![],
        },
        level,
        summoner_name: String::from(name),
    }
}

fn roster_entry(summoner: &str, team: &str, champion: &str, level: i64) -> AllPlayer {
    AllPlayer {
        champion_name: String::from(champion),
        is_bot: false,
        is_dead: false,
        items: vec![],
        level,
        position: String::new(),
        raw_champion_name: String::new(),
        respawn_timer: 0,
        runes: Runes {
            keystone: keystone(),
            primary_rune_tree: keystone(),
            secondary_rune_tree: keystone(),
        },
        scores: Scores { assists: 0, creep_score: 0, deaths: 0, kills: 0, ward_score: 0 },
        skin_id: 0,
        summoner_name: String::from(summoner),
        summoner_spells: SummonerSpells {
            summoner_spell_one: ability(None),
            summoner_spell_two: ability(None),
        },
        team: String::from(team),
    }
}

fn defense(name: &str, armor: u64, armor_per: u64, mr: u64, mr_per: u64) -> DefenseEntry {
    DefenseEntry {
        name: String::from(name),
        armor,
        armor_per_level: armor_per,
        magic_resist: mr,
        magic_resist_per_level: mr_per,
    }
}

#[test]
fn name_normalization() {
    assert_eq!(sanitize_champion_name("Kai'Sa"), "KaiSa");
    assert_eq!(correct_name("KaiSa"), "Kaisa");
    assert_eq!(sanitize_champion_name("Dr. Mundo"), "DrMundo");
    assert_eq!(correct_name("DrMundo"), "DrMundo");
    assert_eq!(correct_name("ChoGath"), "Chogath");
    assert_eq!(correct_name("KhaZix"), "Khazix");
    assert_eq!(sanitize_champion_name("Orianna"), "Orianna");
}

#[test]
fn resistance_scaling() {
    // 30 base, 4.5 per level, level 10: 30 + 4.5 * 9 = 70.5.
    assert_eq!(scale_resistance(30_000, 4_500, 10), 70_500);
    // Level 1 is the base line.
    assert_eq!(scale_resistance(30_000, 4_500, 1), 30_000);
}

#[test]
fn get_active_player_finds_the_first_match() {
    let me = active_player("Me", 0, 0, 1);
    let players = vec![
        roster_entry("Other", "CHAOS", "Ahri", 3),
        roster_entry("Me", "ORDER", "Orianna", 5),
    ];
    let (index, team, champion) = get_active_player(&me, &players);
    assert_eq!(index, 1);
    assert_eq!(team, "ORDER");
    assert_eq!(champion, "Orianna");
}

#[test]
fn get_active_player_missing_yields_sentinel() {
    let me = active_player("Me", 0, 0, 1);
    let players = vec![roster_entry("Other", "CHAOS", "Ahri", 3)];
    let (index, team, champion) = get_active_player(&me, &players);
    assert_eq!(index, 0);
    assert_eq!(team, "None");
    assert_eq!(champion, "None");
}

#[test]
fn opponent_resolution_keeps_roster_order_and_sanitizes() {
    let me = active_player("Me", 0, 0, 1);
    let players = vec![
        roster_entry("A", "CHAOS", "Kai'Sa", 10),
        roster_entry("Me", "ORDER", "Orianna", 5),
        roster_entry("B", "ORDER", "Ahri", 6),
        roster_entry("C", "CHAOS", "Dr. Mundo", 12),
    ];
    let team = OpponantTeam::new(&me, &players);
    assert_eq!(
        team.opponants,
        vec![(String::from("KaiSa"), 10), (String::from("DrMundo"), 12)]
    );
}

#[test]
fn missing_tracked_player_resolves_no_opponents() {
    let me = active_player("Me", 0, 0, 1);
    let players = vec![
        roster_entry("A", "CHAOS", "Kai'Sa", 10),
        roster_entry("B", "ORDER", "Ahri", 6),
    ];
    let rows = OpponantTeam::build_opponant_team(&me, &players);
    assert!(rows.is_empty());
}

#[test]
fn opponent_resistances_are_level_scaled() {
    let me = active_player("Me", 0, 0, 1);
    let players = vec![
        roster_entry("Me", "ORDER", "Orianna", 5),
        roster_entry("A", "CHAOS", "Kai'Sa", 10),
        roster_entry("B", "CHAOS", "ChoGath", 4),
    ];
    let db = ChampionDb {
        entries: vec![
            defense("Kaisa", 28_000, 4_000, 30_000, 4_500),
            defense("Chogath", 38_000, 5_000, 32_000, 2_050),
        ],
    };
    let resistances = OpponantResistances::new(&me, &players, &db);
    assert_eq!(resistances.armor, vec![28_000 + 9 * 4_000, 38_000 + 3 * 5_000]);
    assert_eq!(resistances.magic_resist, vec![30_000 + 9 * 4_500, 32_000 + 3 * 2_050]);
}

#[test]
fn burst_table_builds_one_row_per_opponent() {
    let me = active_player("Me", 100_000, 60_000, 6);
    let players = vec![
        roster_entry("Me", "ORDER", "Orianna", 6),
        roster_entry("A", "CHAOS", "Kai'Sa", 10),
    ];
    let data = LiveGame {
        active_player: Some(me),
        all_players: Some(players),
        events: None,
        game_data: Some(GameData {
            game_mode: String::from("CLASSIC"),
            game_time: 360_000,
            map_name: String::new(),
            map_number: 11,
            map_terrain: String::new(),
        }),
        http_status: None,
    };
    let db = ChampionDb {
        entries: vec![defense("Kaisa", 30_000, 4_500, 30_000, 4_500)],
    };
    let champion = match_champion("Orianna");
    let table = BurstTable {
        champion: &champion,
        data: &data,
        champion_db: &db,
        rotation: "QA",
    };
    let rows = table.build_burst_table_items();
    assert_eq!(rows.len(), 1);
    assert_eq!(rows[0].champion_name, "KaiSa");
    assert_eq!(rows[0].level, 10);
    // Both stat lines scale to 70.5 at level 10. Q raw is 60 + 0.5 * 100 =
    // 110.0, mitigated to 110 / 1.705 = 64.516; the basic attack is 60 /
    // 1.705 = 35.190. The row floors the 99.706 total to 99.
    assert_eq!(rows[0].burst_damage, 99);
}
