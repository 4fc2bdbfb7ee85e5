//! Tests for the mitigation formula and the champion damage profiles.
//!
//! Damage, stats and resistances are in milli-units.

use lolburst::active_player::AbilityRanks;
use lolburst::champions::{match_champion, ActiveChampion};
use lolburst::champions::ahri::Ahri;
use lolburst::data::ChampionStats;
use lolburst::dmg::{
    calculate_mitigation, mitigate_damage_by_armor, mitigate_damage_by_magic_resist, Resistance,
};

#[test]
fn mitigation_formula() {
    // 100.0 damage against 50.0 resistance: 100 / 1.5 = 66.666...
    assert_eq!(calculate_mitigation(100_000, 50_000), 66_666);
    // Zero resistance leaves the damage unchanged.
    assert_eq!(calculate_mitigation(100_000, 0), 100_000);
}

#[test]
fn both_mitigation_stat_lines_use_the_same_curve() {
    assert_eq!(mitigate_damage_by_armor(100_000, 100_000), 50_000);
    assert_eq!(mitigate_damage_by_magic_resist(100_000, 100_000), 50_000);
}

#[test]
fn match_champion_resolves_orianna_only() {
    assert!(matches!(match_champion("Orianna"), ActiveChampion::Orianna(_)));
    assert!(matches!(match_champion("Lucian"), ActiveChampion::Unsupported));
    assert!(matches!(match_champion("orianna"), ActiveChampion::Unsupported));
}

#[test]
fn unsupported_champion_bursts_for_zero() {
    let champion = match_champion("Teemo");
    let stats = ChampionStats { ability_power: 100_000, attack_damage: 60_000 };
    let ranks = AbilityRanks::new(5, 5, 5, 3);
    let damage = champion.calculate_damage(&stats, 18, "QWERPA", &ranks, Resistance::new(0, 0));
    assert_eq!(damage, 0);
}

#[test]
fn rank_zero_indexes_the_zero_damage_entry() {
    let champion = match_champion("Orianna");
    let orianna = match &champion {
        ActiveChampion::Orianna(o) => o,
        ActiveChampion::Unsupported => panic!("Orianna must resolve"),
    };
    let stats = ChampionStats { ability_power: 0, attack_damage: 0 };
    let ranks = AbilityRanks::new(0, 0, 0, 0);
    let rd = orianna.calculate_rd(&stats, 1, &ranks);
    assert_eq!(rd.q, 0);
    assert_eq!(rd.w, 0);
    assert_eq!(rd.e, 0);
    assert_eq!(rd.r, 0);
    // The passive is level-gated, not rank-gated: bracket 0 at level 1.
    assert_eq!(rd.p, 10_000);
    assert_eq!(rd.aa, 0);
}

#[test]
fn orianna_raw_damage_scales_with_ability_power() {
    let champion = match_champion("Orianna");
    let orianna = match &champion {
        ActiveChampion::Orianna(o) => o,
        ActiveChampion::Unsupported => panic!("Orianna must resolve"),
    };
    // 100 ability power, all abilities at rank 1, level 7 (passive bracket 2).
    let stats = ChampionStats { ability_power: 100_000, attack_damage: 55_000 };
    let ranks = AbilityRanks::new(1, 1, 1, 1);
    let rd = orianna.calculate_rd(&stats, 7, &ranks);
    assert_eq!(rd.q, 110_000); // 60 + 0.5 * 100
    assert_eq!(rd.w, 130_000); // 60 + 0.7 * 100
    assert_eq!(rd.e, 90_000); // 60 + 0.3 * 100
    assert_eq!(rd.r, 280_000); // 200 + 0.8 * 100
    assert_eq!(rd.p, 26_000); // bracket (7 - 1) / 3 = 2
    assert_eq!(rd.aa, 55_000);
}

#[test]
fn orianna_burst_sums_mitigated_rotation() {
    let champion = match_champion("Orianna");
    let stats = ChampionStats { ability_power: 100_000, attack_damage: 60_000 };
    let ranks = AbilityRanks::new(1, 1, 1, 1);
    // Unresisted: 110 + 130 + 90 = 330.
    let unresisted = champion.calculate_damage(&stats, 1, "QWE", &ranks, Resistance::new(0, 0));
    assert_eq!(unresisted, 330_000);
    // 100.0 magic resist halves each magic contribution.
    let halved = champion.calculate_damage(&stats, 1, "QWE", &ranks, Resistance::new(0, 100_000));
    assert_eq!(halved, 165_000);
}

#[test]
fn unknown_rotation_tag_contributes_zero() {
    let champion = match_champion("Orianna");
    let stats = ChampionStats { ability_power: 0, attack_damage: 0 };
    let ranks = AbilityRanks::new(1, 0, 0, 0);
    let only_q = champion.calculate_damage(&stats, 1, "Q", &ranks, Resistance::new(0, 0));
    let with_junk = champion.calculate_damage(&stats, 1, "QXZ9", &ranks, Resistance::new(0, 0));
    assert_eq!(only_q, 60_000);
    assert_eq!(with_junk, only_q);
}

#[test]
fn rotation_order_does_not_change_the_sum() {
    let champion = match_champion("Orianna");
    let stats = ChampionStats { ability_power: 80_000, attack_damage: 50_000 };
    let ranks = AbilityRanks::new(2, 3, 1, 1);
    let resistance = Resistance::new(40_000, 55_000);
    let forward = champion.calculate_damage(&stats, 9, "QWERPA", &ranks, resistance);
    let backward = champion.calculate_damage(&stats, 9, "APREWQ", &ranks, resistance);
    assert_eq!(forward, backward);
}

#[test]
fn ahri_q_adds_true_damage_on_top_of_magic() {
    let ahri = Ahri::default();
    let stats = ChampionStats { ability_power: 0, attack_damage: 0 };
    let ranks = AbilityRanks::new(1, 0, 0, 0);
    // Q at rank 1 is 40.0 raw; against 100.0 magic resist the magic half is
    // 20.0 and the true-damage half stays 40.0.
    let damage = ahri.calculate_damage(&stats, "Q", &ranks, Resistance::new(0, 100_000));
    assert_eq!(damage, 60_000);
}

#[test]
fn ahri_basic_attack_is_mitigated_by_armor() {
    let ahri = Ahri::default();
    let stats = ChampionStats { ability_power: 0, attack_damage: 80_000 };
    let ranks = AbilityRanks::new(0, 0, 0, 0);
    let damage = ahri.calculate_damage(&stats, "A", &ranks, Resistance::new(60_000, 0));
    // 80 / 1.6 = 50.
    assert_eq!(damage, 50_000);
}
