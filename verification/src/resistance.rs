//! Level-scaled opponent resistances, pulled from a static champion database
//! and recomputed every tick.
//!
//! Stat values are in milli-units (thousandths of a point).

use vstd::prelude::*;
use vstd::pervasive::unreached;

use crate::data::{ActivePlayer, AllPlayer};
use crate::teams::{active_team, opponents_spec, roster_has, OpponantTeam};
use crate::text::str_eq;

verus! {

/// Largest base or per-level stat value the database may hold, in
/// milli-units. Keeps the level scaling inside `u64`.
pub const STAT_MAX: u64 = 1_000_000_000;

/// Largest player level accepted by the level scaling.
pub const LEVEL_MAX: i64 = 10_000;

/// One champion's defensive stat lines, in milli-units: base and per-level
/// growth for armor and magic resist.
#[derive(Clone, Debug)]
pub struct DefenseEntry {
    /// Champion identifier as the database spells it.
    pub name: String,
    pub armor: u64,
    pub armor_per_level: u64,
    pub magic_resist: u64,
    pub magic_resist_per_level: u64,
}

/// The static champion database, keyed by champion identifier.
#[derive(Clone, Debug)]
pub struct ChampionDb {
    pub entries: Vec<DefenseEntry>,
}

impl ChampionDb {
    /// Every stat line is small enough for the level scaling.
    pub open spec fn wf(&self) -> bool {
        forall|i: int|
            0 <= i < self.entries@.len() ==> {
                &&& #[trigger] self.entries@[i].armor <= STAT_MAX
                &&& self.entries@[i].armor_per_level <= STAT_MAX
                &&& self.entries@[i].magic_resist <= STAT_MAX
                &&& self.entries@[i].magic_resist_per_level <= STAT_MAX
            }
    }
}

/// The first database entry whose name matches, if any.
pub open spec fn db_find(entries: Seq<DefenseEntry>, name: Seq<char>) -> Option<DefenseEntry>
    decreases entries.len(),
{
    if entries.len() == 0 {
        None
    } else if entries[0].name@ == name {
        Some(entries[0])
    } else {
        db_find(entries.drop_first(), name)
    }
}

proof fn lemma_db_find_at(entries: Seq<DefenseEntry>, name: Seq<char>, i: int)
    requires
        0 <= i < entries.len(),
        entries[i].name@ == name,
        forall|k: int| 0 <= k < i ==> entries[k].name@ != name,
    ensures
        db_find(entries, name) == Some(entries[i]),
    decreases i,
{
    if i > 0 {
        lemma_db_find_at(entries.drop_first(), name, i - 1);
    }
}

proof fn lemma_db_find_none(entries: Seq<DefenseEntry>, name: Seq<char>)
    requires
        forall|k: int| 0 <= k < entries.len() ==> entries[k].name@ != name,
    ensures
        db_find(entries, name) is None,
    decreases entries.len(),
{
    if entries.len() > 0 {
        lemma_db_find_none(entries.drop_first(), name);
    }
}

/// A found entry comes from the database, so a well-formed database only
/// yields entries within the stat bound.
proof fn lemma_db_find_bounds(db: &ChampionDb, name: Seq<char>)
    requires
        db.wf(),
    ensures
        db_find(db.entries@, name) matches Some(e) ==> {
            &&& e.armor <= STAT_MAX
            &&& e.armor_per_level <= STAT_MAX
            &&& e.magic_resist <= STAT_MAX
            &&& e.magic_resist_per_level <= STAT_MAX
        },
{
    lemma_db_find_member(db.entries@, name);
}

proof fn lemma_db_find_member(entries: Seq<DefenseEntry>, name: Seq<char>)
    ensures
        db_find(entries, name) matches Some(e) ==> exists|i: int|
            0 <= i < entries.len() && entries[i] == e,
    decreases entries.len(),
{
    if entries.len() > 0 && entries[0].name@ != name {
        lemma_db_find_member(entries.drop_first(), name);
        let found = db_find(entries.drop_first(), name);
        if found is Some {
            let e = found->Some_0;
            let i = choose|i: int|
                0 <= i < entries.drop_first().len() && entries.drop_first()[i] == e;
            assert(entries[i + 1] == e);
        }
    }
}

/// Looks a champion identifier up in the database; first match wins.
fn find_defense<'a>(db: &'a ChampionDb, name: &str) -> (found: Option<&'a DefenseEntry>)
    ensures
        match found {
            Some(e) => db_find(db.entries@, name@) == Some(*e),
            None => db_find(db.entries@, name@) is None,
        },
{
    let len = db.entries.len();
    let mut i: usize = 0;
    while i < len
        invariant
            i <= len,
            len == db.entries@.len(),
            forall|k: int| 0 <= k < i ==> db.entries@[k].name@ != name@,
        decreases len - i,
    {
        if str_eq(db.entries[i].name.as_str(), name) {
            proof {
                lemma_db_find_at(db.entries@, name@, i as int);
            }
            return Some(&db.entries[i]);
        }
        i = i + 1;
    }
    proof {
        lemma_db_find_none(db.entries@, name@);
    }
    None
}

/// A small fixed exception table correcting known spelling mismatches
/// between sanitized live-game names and the champion database.
pub open spec fn corrected_name_spec(s: Seq<char>) -> Seq<char> {
    if s == "ChoGath"@ {
        "Chogath"@
    } else if s == "KhaZix"@ {
        "Khazix"@
    } else if s == "KaiSa"@ {
        "Kaisa"@
    } else {
        s
    }
}

/// Corrects known name-normalization mismatches between the live-game API
/// spelling and the champion database spelling.
pub fn correct_name(name: &str) -> (corrected: String)
    ensures
        corrected@ == corrected_name_spec(name@),
{
    if str_eq(name, "ChoGath") {
        String::from_str("Chogath")
    } else if str_eq(name, "KhaZix") {
        String::from_str("Khazix")
    } else if str_eq(name, "KaiSa") {
        String::from_str("Kaisa")
    } else {
        name.to_owned()
    }
}

/// `base + per_level * (level - 1)` — the level scaling applied to each
/// defensive stat line.
pub open spec fn scale_resistance_spec(base: int, per_level: int, level: int) -> int {
    base + per_level * (level - 1)
}

/// Scales one defensive stat line to a level.
pub fn scale_resistance(base: u64, per_level: u64, level: i64) -> (scaled: u64)
    requires
        base <= STAT_MAX,
        per_level <= STAT_MAX,
        1 <= level <= LEVEL_MAX,
    ensures
        scaled == scale_resistance_spec(base as int, per_level as int, level as int),
        scaled <= crate::dmg::RESIST_MAX,
{
    proof {
        assert(per_level * (level - 1) <= 10_000_000_000_000) by (nonlinear_arith)
            requires
                per_level <= 1_000_000_000,
                0 <= level - 1 < 10_000,
        ;
    }
    base + per_level * ((level - 1) as u64)
}

/// The level-scaled armor of one resolved opponent, or zero when the
/// database has no entry for its champion.
pub open spec fn scaled_armor_spec(entries: Seq<DefenseEntry>, opp: (Seq<char>, int)) -> int {
    match db_find(entries, corrected_name_spec(opp.0)) {
        Some(e) => scale_resistance_spec(e.armor as int, e.armor_per_level as int, opp.1),
        None => 0,
    }
}

/// The level-scaled magic resist of one resolved opponent, or zero when the
/// database has no entry for its champion.
pub open spec fn scaled_magic_resist_spec(entries: Seq<DefenseEntry>, opp: (Seq<char>, int)) -> int {
    match db_find(entries, corrected_name_spec(opp.0)) {
        Some(e) => scale_resistance_spec(
            e.magic_resist as int,
            e.magic_resist_per_level as int,
            opp.1,
        ),
        None => 0,
    }
}

/// One resolved opponent is scalable: its level is in range and its champion
/// is in the database.
pub open spec fn opponent_scalable(entries: Seq<DefenseEntry>, opp: (Seq<char>, int)) -> bool {
    &&& 1 <= opp.1 <= LEVEL_MAX
    &&& db_find(entries, corrected_name_spec(opp.0)) is Some
}

/// Per-opponent level-scaled resistances, in resolution order.
pub struct OpponantResistances {
    pub armor: Vec<u64>,
    pub magic_resist: Vec<u64>,
}

impl OpponantResistances {
    /// Resolves the opposing team and scales each opponent's armor and magic
    /// resist to its level. Requires every opponent's champion to be present
    /// in the database at a sane level, as the lookups have no fallback.
    pub fn new(
        active_player: &ActivePlayer,
        all_players: &Vec<AllPlayer>,
        champion_db: &ChampionDb,
    ) -> (resistances: OpponantResistances)
        requires
            champion_db.wf(),
            forall|i: int|
                0 <= i < opponents_spec(
                    all_players@,
                    active_team(all_players@, active_player.summoner_name@),
                ).len() ==> opponent_scalable(
                    champion_db.entries@,
                    #[trigger] opponents_spec(
                        all_players@,
                        active_team(all_players@, active_player.summoner_name@),
                    )[i],
                ),
        ensures
            ({
                let model = opponents_spec(
                    all_players@,
                    active_team(all_players@, active_player.summoner_name@),
                );
                roster_has(all_players@, active_player.summoner_name@) ==> {
                    &&& resistances.armor@.len() == model.len()
                    &&& resistances.magic_resist@.len() == model.len()
                    &&& forall|i: int|
                        0 <= i < model.len() ==> #[trigger] resistances.armor@[i]
                            == scaled_armor_spec(champion_db.entries@, model[i])
                            && resistances.magic_resist@[i] == scaled_magic_resist_spec(
                            champion_db.entries@,
                            model[i],
                        ) && resistances.armor@[i] <= crate::dmg::RESIST_MAX
                            && resistances.magic_resist@[i] <= crate::dmg::RESIST_MAX
                }
            }),
            !roster_has(all_players@, active_player.summoner_name@) ==> resistances.armor@.len()
                == 0 && resistances.magic_resist@.len() == 0,
    {
        let ghost model = opponents_spec(
            all_players@,
            active_team(all_players@, active_player.summoner_name@),
        );
        let opponant_team = OpponantTeam::new(active_player, all_players);
        let len = opponant_team.opponants.len();
        let mut armor: Vec<u64> = Vec::new();
        let mut magic_resist: Vec<u64> = Vec::new();
        let mut i: usize = 0;
        while i < len
            invariant
                i <= len,
                len == opponant_team.opponants@.len(),
                champion_db.wf(),
                armor@.len() == i,
                magic_resist@.len() == i,
                roster_has(all_players@, active_player.summoner_name@) ==> {
                    &&& crate::teams::opponents_match(opponant_team.opponants@, model)
                    &&& forall|k: int|
                        0 <= k < model.len() ==> opponent_scalable(
                            champion_db.entries@,
                            #[trigger] model[k],
                        )
                    &&& forall|k: int|
                        0 <= k < i ==> #[trigger] armor@[k] == scaled_armor_spec(
                            champion_db.entries@,
                            model[k],
                        ) && magic_resist@[k] == scaled_magic_resist_spec(
                            champion_db.entries@,
                            model[k],
                        ) && armor@[k] <= crate::dmg::RESIST_MAX && magic_resist@[k]
                            <= crate::dmg::RESIST_MAX
                },
                !roster_has(all_players@, active_player.summoner_name@) ==> len == 0,
            decreases len - i,
        {
            let corrected = correct_name(opponant_team.opponants[i].0.as_str());
            let level = opponant_team.opponants[i].1;
            proof {
                lemma_db_find_bounds(champion_db, corrected@);
            }
            match find_defense(champion_db, corrected.as_str()) {
                Some(entry) => {
                    armor.push(scale_resistance(entry.armor, entry.armor_per_level, level));
                    magic_resist.push(
                        scale_resistance(entry.magic_resist, entry.magic_resist_per_level, level),
                    );
                },
                None => {
                    return unreached();
                },
            }
            i = i + 1;
        }
        OpponantResistances { armor, magic_resist }
    }
}

} // verus!
