use vstd::prelude::*;
use vstd::string::StringExecFns;

use crate::similarity::spec_is_similar;

verus! {

/// One player of a team: the name shown in the spectator view (platoon tag
/// included) and the player's persona id.
pub struct RosterEntry {
    pub name: String,
    pub id: String,
}

/// A snapshot of the server: counts, map, the two teams, and whether a fresh
/// refresh arrived that has not been consumed yet.
pub struct ServerDetails {
    pub game_id: String,
    pub name: String,
    pub max_player_count: u64,
    pub queue_count: u64,
    pub spectator_count: u64,
    pub max_spectator_count: u64,
    pub map: String,
    pub team1: Vec<RosterEntry>,
    pub team1_name: String,
    pub team2: Vec<RosterEntry>,
    pub team2_name: String,
    pub updated: bool,
}

/// The first index from `i` on (below `n`) that satisfies `p`.
pub open spec fn first_from(i: int, n: int, p: spec_fn(int) -> bool) -> Option<int>
    decreases n - i,
{
    if i >= n {
        None
    } else if p(i) {
        Some(i)
    } else {
        first_from(i + 1, n, p)
    }
}

pub proof fn lemma_first_from(i: int, n: int, p: spec_fn(int) -> bool)
    ensures
        first_from(i, n, p) is Some ==> {
            let k = first_from(i, n, p)->0;
            &&& i <= k < n
            &&& p(k)
            &&& forall|j: int| i <= j < k ==> !#[trigger] p(j)
        },
        first_from(i, n, p) is None ==> forall|j: int| i <= j < n ==> !#[trigger] p(j),
    decreases n - i,
{
    if i < n && !p(i) {
        lemma_first_from(i + 1, n, p);
    }
}

/// The entry of `team` whose name is exactly `name`.
pub open spec fn exact_at(team: Seq<RosterEntry>, name: Seq<char>) -> spec_fn(int) -> bool {
    |k: int| team[k].name@ == name
}

/// The entry of a team whose similarity score reaches the threshold; an
/// entry without a score is no fuzzy match.
pub open spec fn fuzzy_at(scores: Seq<u32>, threshold: u32) -> spec_fn(int) -> bool {
    |k: int| k < scores.len() && spec_is_similar(scores[k], threshold)
}

/// No two entries of a team carry the same name.
pub open spec fn team_unique(team: Seq<RosterEntry>) -> bool {
    forall|i: int, j: int|
        0 <= i < team.len() && 0 <= j < team.len() && i != j ==> (#[trigger] team[i]).name@ != (
        #[trigger] team[j]).name@
}

pub open spec fn entry_view(e: RosterEntry) -> (Seq<char>, Seq<char>) {
    (e.name@, e.id@)
}

/// The roster entry that a detected name resolves to: an exact name in
/// team 1 or else team 2; failing that, the first entry of team 1 or else
/// team 2 whose similarity to the name reaches the threshold.
pub open spec fn spec_find_player(
    team1: Seq<RosterEntry>,
    team2: Seq<RosterEntry>,
    name: Seq<char>,
    scores1: Seq<u32>,
    scores2: Seq<u32>,
    threshold: u32,
) -> Option<(Seq<char>, Seq<char>)> {
    if first_from(0, team1.len() as int, exact_at(team1, name)) is Some {
        Some(entry_view(team1[first_from(0, team1.len() as int, exact_at(team1, name))->0]))
    } else if first_from(0, team2.len() as int, exact_at(team2, name)) is Some {
        Some(entry_view(team2[first_from(0, team2.len() as int, exact_at(team2, name))->0]))
    } else if first_from(0, team1.len() as int, fuzzy_at(scores1, threshold)) is Some {
        Some(entry_view(team1[first_from(0, team1.len() as int, fuzzy_at(scores1, threshold))->0]))
    } else if first_from(0, team2.len() as int, fuzzy_at(scores2, threshold)) is Some {
        Some(entry_view(team2[first_from(0, team2.len() as int, fuzzy_at(scores2, threshold))->0]))
    } else {
        None
    }
}

fn copy_entry(e: &RosterEntry) -> (r: (String, String))
    ensures
        r.0@ == e.name@,
        r.1@ == e.id@,
{
    (e.name.clone(), e.id.clone())
}

fn find_exact(team: &Vec<RosterEntry>, name: &String) -> (r: Option<usize>)
    ensures
        r matches Some(k) ==> first_from(0, team@.len() as int, exact_at(team@, name@)) == Some(k as int),
        r is None ==> first_from(0, team@.len() as int, exact_at(team@, name@)) is None,
{
    let ghost p = exact_at(team@, name@);
    let mut i: usize = 0;
    while i < team.len()
        invariant
            i <= team@.len(),
            p == exact_at(team@, name@),
            first_from(0, team@.len() as int, p) == first_from(i as int, team@.len() as int, p),
        decreases team.len() - i,
    {
        if team[i].name == *name {
            return Some(i);
        }
        i = i + 1;
    }
    None
}

fn find_fuzzy(scores: &Vec<u32>, len: usize, threshold: u32) -> (r: Option<usize>)
    ensures
        r matches Some(k) ==> first_from(0, len as int, fuzzy_at(scores@, threshold)) == Some(k as int),
        r is None ==> first_from(0, len as int, fuzzy_at(scores@, threshold)) is None,
{
    let ghost p = fuzzy_at(scores@, threshold);
    let mut i: usize = 0;
    while i < len
        invariant
            i <= len,
            p == fuzzy_at(scores@, threshold),
            first_from(0, len as int, p) == first_from(i as int, len as int, p),
        decreases len - i,
    {
        if i < scores.len() && scores[i] >= threshold {
            return Some(i);
        }
        i = i + 1;
    }
    None
}

impl ServerDetails {
    /// Within each team, names are unique, as keys of a map would be.
    pub open spec fn wf(&self) -> bool {
        team_unique(self.team1@) && team_unique(self.team2@)
    }

    /// The number of players on both teams.
    pub fn player_count(&self) -> (r: usize)
        requires
            self.team1@.len() + self.team2@.len() <= usize::MAX,
        ensures
            r == self.team1@.len() + self.team2@.len(),
    {
        self.team1.len() + self.team2.len()
    }

    /// Consumes the "fresh refresh" flag: tells whether it was set, and
    /// clears it.
    pub fn is_updated(&mut self) -> (r: bool)
        ensures
            r == old(self).updated,
            *final(self) == (ServerDetails { updated: false, ..*old(self) }),
    {
        if self.updated {
            self.updated = false;
            true
        } else {
            false
        }
    }

    /// Resolves a detected player name against the roster, returning the
    /// roster's own name for the player and the player's id.
    ///
    /// `scores1` and `scores2` hold the similarity of `name` to each entry of
    /// team 1 and team 2, in roster order (an entry without a score is no
    /// fuzzy match). An exact name always wins over a fuzzy match; among
    /// fuzzy matches the first in roster order wins. Names are unique within
    /// a team (`wf`), so an exact match in a team is its only such entry.
    pub fn find_player(
        &self,
        name: &String,
        scores1: &Vec<u32>,
        scores2: &Vec<u32>,
        threshold: u32,
    ) -> (r: Option<(String, String)>)
        ensures
            r matches Some(p) ==> spec_find_player(
                self.team1@,
                self.team2@,
                name@,
                scores1@,
                scores2@,
                threshold,
            ) == Some((p.0@, p.1@)),
            r is None ==> spec_find_player(
                self.team1@,
                self.team2@,
                name@,
                scores1@,
                scores2@,
                threshold,
            ) is None,
    {
        proof {
            lemma_first_from(0, self.team1@.len() as int, exact_at(self.team1@, name@));
            lemma_first_from(0, self.team2@.len() as int, exact_at(self.team2@, name@));
            lemma_first_from(0, self.team1@.len() as int, fuzzy_at(scores1@, threshold));
            lemma_first_from(0, self.team2@.len() as int, fuzzy_at(scores2@, threshold));
        }
        if let Some(k) = find_exact(&self.team1, name) {
            return Some(copy_entry(&self.team1[k]));
        }
        if let Some(k) = find_exact(&self.team2, name) {
            return Some(copy_entry(&self.team2[k]));
        }
        if let Some(k) = find_fuzzy(scores1, self.team1.len(), threshold) {
            return Some(copy_entry(&self.team1[k]));
        }
        if let Some(k) = find_fuzzy(scores2, self.team2.len(), threshold) {
            return Some(copy_entry(&self.team2[k]));
        }
        None
    }
}

/// An exact name always wins: when an entry carries the detected name
/// exactly, the name resolves to that entry (team 1 before team 2),
/// whatever the similarity scores of the other entries.
pub proof fn lemma_exact_name_wins(
    team1: Seq<RosterEntry>,
    team2: Seq<RosterEntry>,
    name: Seq<char>,
    scores1: Seq<u32>,
    scores2: Seq<u32>,
    threshold: u32,
    k: int,
    in_team1: bool,
)
    requires
        team_unique(team1),
        team_unique(team2),
        in_team1 ==> 0 <= k < team1.len() && team1[k].name@ == name,
        !in_team1 ==> 0 <= k < team2.len() && team2[k].name@ == name,
    ensures
        spec_find_player(team1, team2, name, scores1, scores2, threshold) matches Some(p) && p.0
            == name,
        in_team1 ==> spec_find_player(team1, team2, name, scores1, scores2, threshold) == Some(
            entry_view(team1[k]),
        ),
        !in_team1 && (forall|j: int| 0 <= j < team1.len() ==> (#[trigger] team1[j]).name@ != name)
            ==> spec_find_player(team1, team2, name, scores1, scores2, threshold) == Some(
            entry_view(team2[k]),
        ),
{
    lemma_first_from(0, team1.len() as int, exact_at(team1, name));
    lemma_first_from(0, team2.len() as int, exact_at(team2, name));
    if in_team1 {
        assert(exact_at(team1, name)(k));
    } else {
        assert(exact_at(team2, name)(k));
        if first_from(0, team1.len() as int, exact_at(team1, name)) is Some {
            let j = first_from(0, team1.len() as int, exact_at(team1, name))->0;
            assert(exact_at(team1, name)(j));
        }
    }
}

impl ServerDetails {
    /// Some entry of either team carries exactly this name.
    pub open spec fn spec_has_player(&self, name: Seq<char>) -> bool {
        (exists|k: int| 0 <= k < self.team1@.len() && (#[trigger] self.team1@[k]).name@ == name)
            || (exists|k: int| 0 <= k < self.team2@.len() && (#[trigger] self.team2@[k]).name@ == name)
    }

    pub fn has_player(&self, name: &String) -> (r: bool)
        ensures
            r == self.spec_has_player(name@),
    {
        proof {
            lemma_first_from(0, self.team1@.len() as int, exact_at(self.team1@, name@));
            lemma_first_from(0, self.team2@.len() as int, exact_at(self.team2@, name@));
        }
        let in1 = find_exact(&self.team1, name);
        let in2 = find_exact(&self.team2, name);
        proof {
            if in1 is None {
                assert forall|k: int| 0 <= k < self.team1@.len() implies (
                #[trigger] self.team1@[k]).name@ != name@ by {
                    assert(!exact_at(self.team1@, name@)(k));
                }
            }
            if in2 is None {
                assert forall|k: int| 0 <= k < self.team2@.len() implies (
                #[trigger] self.team2@[k]).name@ != name@ by {
                    assert(!exact_at(self.team2@, name@)(k));
                }
            }
        }
        in1.is_some() || in2.is_some()
    }
}

/// The name under which a player appears in the spectator view: the
/// platoon tag in brackets before the name, when the player has one.
pub open spec fn spec_tagged_name(platoon: Seq<char>, name: Seq<char>) -> Seq<char> {
    if platoon.len() == 0 {
        name
    } else {
        "["@ + platoon + "]"@ + name
    }
}

pub fn tagged_player_name(platoon: &str, name: &str) -> (r: String)
    ensures
        r@ == spec_tagged_name(platoon@, name@),
{
    if platoon.is_empty() {
        return name.to_owned();
    }
    let mut r = String::from_str("[");
    r.append(platoon);
    r.append("]");
    r.append(name);
    r
}

/// Adds a player to a team, replacing the id of a player of the same name.
pub fn insert_player(team: &mut Vec<RosterEntry>, name: String, id: String)
    requires
        team_unique(old(team)@),
    ensures
        team_unique(final(team)@),
        first_from(0, old(team)@.len() as int, exact_at(old(team)@, name@)) matches Some(k) ==> {
            &&& final(team)@.len() == old(team)@.len()
            &&& final(team)@[k].name@ == name@
            &&& final(team)@[k].id@ == id@
            &&& forall|j: int| 0 <= j < old(team)@.len() && j != k ==> #[trigger] final(team)@[j]
                == old(team)@[j]
        },
        first_from(0, old(team)@.len() as int, exact_at(old(team)@, name@)) is None ==> {
            &&& final(team)@.len() == old(team)@.len() + 1
            &&& final(team)@.last().name@ == name@
            &&& final(team)@.last().id@ == id@
            &&& final(team)@.drop_last() == old(team)@
        },
{
    proof {
        lemma_first_from(0, team@.len() as int, exact_at(team@, name@));
    }
    match find_exact(team, &name) {
        Some(k) => {
            team.set(k, RosterEntry { name, id });
            assert forall|i: int, j: int|
                0 <= i < team@.len() && 0 <= j < team@.len() && i != j implies (
                #[trigger] team@[i]).name@ != (#[trigger] team@[j]).name@ by {
                assert(team@[i].name@ == old(team)@[i].name@);
                assert(team@[j].name@ == old(team)@[j].name@);
            }
        },
        None => {
            let ghost n = name@;
            team.push(RosterEntry { name, id });
            assert(team@.drop_last() =~= old(team)@);
            assert forall|i: int, j: int|
                0 <= i < team@.len() && 0 <= j < team@.len() && i != j implies (
                #[trigger] team@[i]).name@ != (#[trigger] team@[j]).name@ by {
                let last = old(team)@.len() as int;
                if i < last && j < last {
                    assert(team@[i] == old(team)@[i] && team@[j] == old(team)@[j]);
                } else if i < last {
                    assert(team@[i] == old(team)@[i]);
                    assert(!exact_at(old(team)@, n)(i));
                } else {
                    assert(team@[j] == old(team)@[j]);
                    assert(!exact_at(old(team)@, n)(j));
                }
            }
        },
    }
}

impl Default for ServerDetails {
    /// A snapshot with nothing in it.
    fn default() -> (r: ServerDetails)
        ensures
            r.game_id@.len() == 0,
            r.name@.len() == 0,
            r.max_player_count == 0,
            r.queue_count == 0,
            r.spectator_count == 0,
            r.max_spectator_count == 0,
            r.map@.len() == 0,
            r.team1@.len() == 0,
            r.team1_name@.len() == 0,
            r.team2@.len() == 0,
            r.team2_name@.len() == 0,
            !r.updated,
    {
        ServerDetails {
            game_id: String::new(),
            name: String::new(),
            max_player_count: 0,
            queue_count: 0,
            spectator_count: 0,
            max_spectator_count: 0,
            map: String::new(),
            team1: Vec::new(),
            team1_name: String::new(),
            team2: Vec::new(),
            team2_name: String::new(),
            updated: false,
        }
    }
}

} // verus!
