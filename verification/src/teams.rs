//! Opponent resolution: partitioning the roster by team relative to the
//! tracked player, with champion display names sanitized for database lookup.

use vstd::prelude::*;

use crate::data::{ActivePlayer, AllPlayer};
use crate::text::{push_char, str_eq};

verus! {

/// Characters kept by champion-name sanitization: apostrophes, spaces and
/// periods are stripped, since champion identifiers in the external champion
/// database omit them.
pub open spec fn kept_char(c: char) -> bool {
    c != '\'' && c != ' ' && c != '.'
}

/// A champion display name with apostrophes, spaces and periods stripped.
pub open spec fn sanitize_spec(s: Seq<char>) -> Seq<char>
    decreases s.len(),
{
    if s.len() == 0 {
        Seq::empty()
    } else {
        let rest = sanitize_spec(s.drop_last());
        if kept_char(s.last()) {
            rest.push(s.last())
        } else {
            rest
        }
    }
}

/// Strips apostrophes, spaces and periods from a champion display name.
pub fn sanitize_champion_name(name: &str) -> (sanitized: String)
    ensures
        sanitized@ == sanitize_spec(name@),
{
    let len = name.unicode_len();
    let mut out = String::new();
    let mut i: usize = 0;
    while i < len
        invariant
            i <= len,
            len == name@.len(),
            out@ == sanitize_spec(name@.subrange(0, i as int)),
        decreases len - i,
    {
        let c = name.get_char(i);
        if !(c == '\'' || c == ' ' || c == '.') {
            push_char(&mut out, c);
        }
        proof {
            assert(name@.subrange(0, i + 1).drop_last() =~= name@.subrange(0, i as int));
            assert(name@.subrange(0, i + 1).last() == name@[i as int]);
        }
        i = i + 1;
    }
    proof {
        assert(name@.subrange(0, len as int) =~= name@);
    }
    out
}

/// The first roster entry whose summoner name matches, if any.
pub open spec fn find_player(players: Seq<AllPlayer>, name: Seq<char>) -> Option<AllPlayer>
    decreases players.len(),
{
    if players.len() == 0 {
        None
    } else if players[0].summoner_name@ == name {
        Some(players[0])
    } else {
        find_player(players.drop_first(), name)
    }
}

/// Whether the roster holds an entry for the given summoner name.
pub open spec fn roster_has(players: Seq<AllPlayer>, name: Seq<char>) -> bool {
    find_player(players, name) is Some
}

/// The tracked player's team tag, or the sentinel `"None"` when the roster
/// has no matching entry.
pub open spec fn active_team(players: Seq<AllPlayer>, name: Seq<char>) -> Seq<char> {
    match find_player(players, name) {
        Some(p) => p.team@,
        None => "None"@,
    }
}

/// The tracked player's champion name, or the sentinel `"None"` when the
/// roster has no matching entry.
pub open spec fn active_champion(players: Seq<AllPlayer>, name: Seq<char>) -> Seq<char> {
    match find_player(players, name) {
        Some(p) => p.champion_name@,
        None => "None"@,
    }
}

proof fn lemma_find_player_at(players: Seq<AllPlayer>, name: Seq<char>, i: int)
    requires
        0 <= i < players.len(),
        players[i].summoner_name@ == name,
        forall|k: int| 0 <= k < i ==> players[k].summoner_name@ != name,
    ensures
        find_player(players, name) == Some(players[i]),
    decreases i,
{
    if i > 0 {
        lemma_find_player_at(players.drop_first(), name, i - 1);
    }
}

proof fn lemma_find_player_some(players: Seq<AllPlayer>, name: Seq<char>, i: int)
    requires
        0 <= i < players.len(),
        players[i].summoner_name@ == name,
    ensures
        find_player(players, name) is Some,
    decreases i,
{
    if players[0].summoner_name@ != name {
        lemma_find_player_some(players.drop_first(), name, i - 1);
    }
}

proof fn lemma_find_player_none(players: Seq<AllPlayer>, name: Seq<char>)
    requires
        forall|k: int| 0 <= k < players.len() ==> players[k].summoner_name@ != name,
    ensures
        find_player(players, name) is None,
    decreases players.len(),
{
    if players.len() > 0 {
        lemma_find_player_none(players.drop_first(), name);
    }
}

/// Scans the roster for the tracked player. Returns the index, team tag and
/// champion name of the first entry whose summoner name matches, or
/// `(0, "None", "None")` when none does — a data-integrity gap the
/// orchestrator treats as transient.
pub fn get_active_player(active_player: &ActivePlayer, players: &Vec<AllPlayer>) -> (found: (
    usize,
    String,
    String,
))
    ensures
        found.1@ == active_team(players@, active_player.summoner_name@),
        found.2@ == active_champion(players@, active_player.summoner_name@),
        roster_has(players@, active_player.summoner_name@) ==> {
            &&& found.0 < players@.len()
            &&& players@[found.0 as int].summoner_name@ == active_player.summoner_name@
            &&& forall|k: int|
                0 <= k < found.0 ==> players@[k].summoner_name@ != active_player.summoner_name@
        },
        !roster_has(players@, active_player.summoner_name@) ==> found.0 == 0,
{
    let len = players.len();
    let mut i: usize = 0;
    while i < len
        invariant
            i <= len,
            len == players@.len(),
            forall|k: int|
                0 <= k < i ==> players@[k].summoner_name@ != active_player.summoner_name@,
        decreases len - i,
    {
        if str_eq(players[i].summoner_name.as_str(), active_player.summoner_name.as_str()) {
            proof {
                lemma_find_player_at(players@, active_player.summoner_name@, i as int);
            }
            return (i, players[i].team.clone(), players[i].champion_name.clone());
        }
        i = i + 1;
    }
    proof {
        lemma_find_player_none(players@, active_player.summoner_name@);
    }
    (0, String::from_str("None"), String::from_str("None"))
}

/// The opponents of the given team, in roster order: each entry is the
/// sanitized champion name and the level.
pub open spec fn opponents_spec(players: Seq<AllPlayer>, team: Seq<char>) -> Seq<(Seq<char>, int)>
    decreases players.len(),
{
    if players.len() == 0 {
        Seq::empty()
    } else {
        let rest = opponents_spec(players.drop_last(), team);
        let p = players.last();
        if p.team@ != team {
            rest.push((sanitize_spec(p.champion_name@), p.level as int))
        } else {
            rest
        }
    }
}

/// Element-wise agreement of built opponent rows with the model.
pub open spec fn opponents_match(rows: Seq<(String, i64)>, model: Seq<(Seq<char>, int)>) -> bool {
    &&& rows.len() == model.len()
    &&& forall|i: int|
        0 <= i < rows.len() ==> #[trigger] rows[i].0@ == model[i].0 && rows[i].1 == model[i].1
}

/// The opposing half of the roster, resolved once per tick.
pub struct OpponantTeam {
    /// One entry per opponent, in roster order: sanitized champion name and
    /// level.
    pub opponants: Vec<(String, i64)>,
}

impl OpponantTeam {
    pub fn new(active_player: &ActivePlayer, players: &Vec<AllPlayer>) -> (team: OpponantTeam)
        ensures
            roster_has(players@, active_player.summoner_name@) ==> opponents_match(
                team.opponants@,
                opponents_spec(players@, active_team(players@, active_player.summoner_name@)),
            ),
            !roster_has(players@, active_player.summoner_name@) ==> team.opponants@.len() == 0,
    {
        OpponantTeam { opponants: OpponantTeam::build_opponant_team(active_player, players) }
    }

    /// Scans the roster and collects every entry on the other team, in roster
    /// order, with the champion name sanitized. Returns no entries when the
    /// tracked player is missing from the roster.
    pub fn build_opponant_team(active_player: &ActivePlayer, players: &Vec<AllPlayer>) -> (rows:
        Vec<(String, i64)>)
        ensures
            roster_has(players@, active_player.summoner_name@) ==> opponents_match(
                rows@,
                opponents_spec(players@, active_team(players@, active_player.summoner_name@)),
            ),
            !roster_has(players@, active_player.summoner_name@) ==> rows@.len() == 0,
    {
        let (idx, team, _champion) = get_active_player(active_player, players);
        if idx >= players.len() {
            return Vec::new();
        }
        if !str_eq(
            players[idx].summoner_name.as_str(),
            active_player.summoner_name.as_str(),
        ) {
            return Vec::new();
        }
        proof {
            lemma_find_player_some(players@, active_player.summoner_name@, idx as int);
        }
        let len = players.len();
        let mut rows: Vec<(String, i64)> = Vec::new();
        let mut i: usize = 0;
        while i < len
            invariant
                i <= len,
                len == players@.len(),
                team@ == active_team(players@, active_player.summoner_name@),
                opponents_match(
                    rows@,
                    opponents_spec(players@.subrange(0, i as int), team@),
                ),
            decreases len - i,
        {
            let p_team = &players[i].team;
            if !str_eq(p_team.as_str(), team.as_str()) {
                let sanitized = sanitize_champion_name(players[i].champion_name.as_str());
                let level = players[i].level;
                rows.push((sanitized, level));
            }
            proof {
                assert(players@.subrange(0, i + 1).drop_last() =~= players@.subrange(0, i as int));
                assert(players@.subrange(0, i + 1).last() == players@[i as int]);
            }
            i = i + 1;
        }
        proof {
            assert(players@.subrange(0, len as int) =~= players@);
        }
        rows
    }
}

} // verus!
