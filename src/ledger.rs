use vstd::prelude::*;
use vstd::string::StringExecFns;

use crate::weapon::{BannedItems, WeaponClasses};

verus! {

/// When a player was kicked for one weapon, as Unix timestamps in seconds.
pub struct WeaponKicks {
    pub weapon: String,
    pub dates: Vec<i64>,
}

/// The kicks of one player, by weapon.
pub struct PlayerKicks {
    pub player: String,
    pub weapons: Vec<WeaponKicks>,
}

/// The kick history of all players.
pub struct KickHistory {
    pub players: Vec<PlayerKicks>,
}

pub open spec fn weapons_view(ws: Seq<WeaponKicks>) -> Seq<(Seq<char>, Seq<i64>)> {
    ws.map_values(|w: WeaponKicks| (w.weapon@, w.dates@))
}

pub open spec fn players_view(ps: Seq<PlayerKicks>) -> Seq<(Seq<char>, Seq<(Seq<char>, Seq<i64>)>)> {
    ps.map_values(|p: PlayerKicks| (p.player@, weapons_view(p.weapons@)))
}

impl KickHistory {
    pub open spec fn view(&self) -> Seq<(Seq<char>, Seq<(Seq<char>, Seq<i64>)>)> {
        players_view(self.players@)
    }

    pub fn new() -> (r: KickHistory)
        ensures
            r.view().len() == 0,
    {
        KickHistory { players: Vec::new() }
    }
}

/// The number of kicks recorded for one player, over all weapons.
pub open spec fn total_kicks(wv: Seq<(Seq<char>, Seq<i64>)>) -> int
    decreases wv.len(),
{
    if wv.len() == 0 {
        0
    } else {
        total_kicks(wv.drop_last()) + wv.last().1.len()
    }
}

pub open spec fn capped(n: int) -> u64 {
    if n > u64::MAX {
        u64::MAX
    } else {
        n as u64
    }
}

/// The total number of kicks of a player (capped at `u64::MAX`).
pub fn get_total_kicks(weapons: &Vec<WeaponKicks>) -> (r: u64)
    ensures
        r == capped(total_kicks(weapons_view(weapons@))),
{
    let ghost wv = weapons_view(weapons@);
    let mut sum: u64 = 0;
    let mut i: usize = 0;
    while i < weapons.len()
        invariant
            i <= weapons@.len(),
            wv == weapons_view(weapons@),
            sum == capped(total_kicks(wv.take(i as int))),
        decreases weapons.len() - i,
    {
        proof {
            assert(wv.take(i + 1).drop_last() =~= wv.take(i as int));
            assert(wv.take(i + 1).last() == wv[i as int]);
            assert(total_kicks(wv.take(i as int)) >= 0) by {
                lemma_total_nonnegative(wv.take(i as int));
            }
        }
        let n = weapons[i].dates.len() as u64;
        sum = if sum <= u64::MAX - n {
            sum + n
        } else {
            u64::MAX
        };
        i = i + 1;
    }
    proof {
        assert(wv.take(i as int) =~= wv);
    }
    sum
}

proof fn lemma_total_nonnegative(wv: Seq<(Seq<char>, Seq<i64>)>)
    ensures
        total_kicks(wv) >= 0,
    decreases wv.len(),
{
    if wv.len() > 0 {
        lemma_total_nonnegative(wv.drop_last());
    }
}

/// The name under which kicks for a category are recorded; allowed guns and
/// categories without a configured vehicle are not recorded.
pub open spec fn ledger_label(items: &BannedItems, category: WeaponClasses) -> Option<Seq<char>> {
    match category {
        WeaponClasses::HeavyBomber => Some(items.heavy_bomber.pretty_name@),
        WeaponClasses::LMG => Some(items.lmg.pretty_name@),
        WeaponClasses::SMG08 => Some("smg08"@),
        _ => None,
    }
}

/// The first index below `n` whose name is `name`.
pub open spec fn first_named(names: spec_fn(int) -> Seq<char>, i: int, n: int, name: Seq<char>) -> Option<int>
    decreases n - i,
{
    if i >= n {
        None
    } else if names(i) == name {
        Some(i)
    } else {
        first_named(names, i + 1, n, name)
    }
}

proof fn lemma_first_named(names: spec_fn(int) -> Seq<char>, i: int, n: int, name: Seq<char>)
    ensures
        first_named(names, i, n, name) matches Some(k) ==> i <= k < n && names(k) == name,
    decreases n - i,
{
    if i < n && names(i) != name {
        lemma_first_named(names, i + 1, n, name);
    }
}

/// One more kick for `label` at `date`: appended to the first entry of that
/// weapon, or a new entry for it.
pub open spec fn spec_add_date(wv: Seq<(Seq<char>, Seq<i64>)>, label: Seq<char>, date: i64) -> Seq<(Seq<char>, Seq<i64>)> {
    match first_named(|j: int| wv[j].0, 0, wv.len() as int, label) {
        Some(j) => wv.update(j, (wv[j].0, wv[j].1.push(date))),
        None => wv.push((label, seq![date])),
    }
}

/// The history after recording a kick of `player` for `label` at `date`: a
/// known player gets the kick added, a new player gets an entry of their own.
pub open spec fn spec_record(
    pv: Seq<(Seq<char>, Seq<(Seq<char>, Seq<i64>)>)>,
    player: Seq<char>,
    label: Seq<char>,
    date: i64,
) -> Seq<(Seq<char>, Seq<(Seq<char>, Seq<i64>)>)> {
    match first_named(|k: int| pv[k].0, 0, pv.len() as int, player) {
        Some(k) => pv.update(k, (pv[k].0, spec_add_date(pv[k].1, label, date))),
        None => pv.push((player, seq![(label, seq![date])])),
    }
}

fn find_weapon(ws: &Vec<WeaponKicks>, label: &String) -> (r: Option<usize>)
    ensures
        r matches Some(j) ==> first_named(|j: int| weapons_view(ws@)[j].0, 0, ws@.len() as int, label@) == Some(j as int),
        r is None ==> first_named(|j: int| weapons_view(ws@)[j].0, 0, ws@.len() as int, label@) is None,
{
    let ghost f = |j: int| weapons_view(ws@)[j].0;
    let mut i: usize = 0;
    while i < ws.len()
        invariant
            i <= ws@.len(),
            f == (|j: int| weapons_view(ws@)[j].0),
            first_named(f, 0, ws@.len() as int, label@) == first_named(f, i as int, ws@.len() as int, label@),
        decreases ws.len() - i,
    {
        if ws[i].weapon == *label {
            return Some(i);
        }
        i = i + 1;
    }
    None
}

fn find_player(ps: &Vec<PlayerKicks>, player: &String) -> (r: Option<usize>)
    ensures
        r matches Some(k) ==> first_named(|k: int| players_view(ps@)[k].0, 0, ps@.len() as int, player@) == Some(k as int),
        r is None ==> first_named(|k: int| players_view(ps@)[k].0, 0, ps@.len() as int, player@) is None,
{
    let ghost f = |k: int| players_view(ps@)[k].0;
    let mut i: usize = 0;
    while i < ps.len()
        invariant
            i <= ps@.len(),
            f == (|k: int| players_view(ps@)[k].0),
            first_named(f, 0, ps@.len() as int, player@) == first_named(f, i as int, ps@.len() as int, player@),
        decreases ps.len() - i,
    {
        if ps[i].player == *player {
            return Some(i);
        }
        i = i + 1;
    }
    None
}

fn label_for(items: &BannedItems, category: WeaponClasses) -> (r: Option<String>)
    ensures
        r matches Some(l) ==> ledger_label(items, category) == Some(l@),
        r is None ==> ledger_label(items, category) is None,
{
    match category {
        WeaponClasses::HeavyBomber => Some(items.heavy_bomber.pretty_name.clone()),
        WeaponClasses::LMG => Some(items.lmg.pretty_name.clone()),
        WeaponClasses::SMG08 => Some(String::from_str("smg08")),
        _ => None,
    }
}

fn add_date(ws: &mut Vec<WeaponKicks>, label: String, date: i64)
    ensures
        weapons_view(final(ws)@) == spec_add_date(weapons_view(old(ws)@), label@, date),
{
    let ghost wv = weapons_view(ws@);
    proof {
        lemma_first_named(|j: int| wv[j].0, 0, wv.len() as int, label@);
    }
    match find_weapon(ws, &label) {
        Some(j) => {
            let mut w = ws.remove(j);
            w.dates.push(date);
            ws.insert(j, w);
            assert(weapons_view(ws@) =~= wv.update(j as int, (wv[j as int].0, wv[j as int].1.push(date))));
        },
        None => {
            let mut dates: Vec<i64> = Vec::new();
            dates.push(date);
            ws.push(WeaponKicks { weapon: label, dates });
            assert(weapons_view(ws@) =~= wv.push((label@, seq![date])));
        },
    }
}

/// Records a kick of `player_name` for a weapon of the given category at
/// `date`. When the player had been kicked before, and the new total number
/// of their kicks is a multiple of `kicks_to_ping`, returns that total so
/// that it can be announced.
pub fn add_to_player_kick_record(
    history: &mut KickHistory,
    items: &BannedItems,
    player_name: String,
    weapon_type: WeaponClasses,
    date: i64,
    kicks_to_ping: u64,
) -> (r: Option<u64>)
    requires
        kicks_to_ping > 0,
    ensures
        ledger_label(items, weapon_type) is None ==> final(history).view() == old(history).view()
            && r is None,
        ledger_label(items, weapon_type) matches Some(label) ==> final(history).view()
            == spec_record(old(history).view(), player_name@, label, date),
        ledger_label(items, weapon_type) is Some && first_named(
            |k: int| old(history).view()[k].0,
            0,
            old(history).view().len() as int,
            player_name@,
        ) is None ==> r is None,
        ledger_label(items, weapon_type) is Some ==> (first_named(
            |k: int| old(history).view()[k].0,
            0,
            old(history).view().len() as int,
            player_name@,
        ) matches Some(k) ==> {
            let total = capped(total_kicks(final(history).view()[k].1));
            &&& total % kicks_to_ping == 0 ==> r == Some(total)
            &&& total % kicks_to_ping != 0 ==> r is None
        }),
{
    let label = match label_for(items, weapon_type) {
        None => {
            return None;
        },
        Some(l) => l,
    };
    let ghost pv = history.view();
    proof {
        lemma_first_named(|k: int| pv[k].0, 0, pv.len() as int, player_name@);
    }
    match find_player(&history.players, &player_name) {
        Some(k) => {
            let mut p = history.players.remove(k);
            add_date(&mut p.weapons, label, date);
            let total = get_total_kicks(&p.weapons);
            history.players.insert(k, p);
            assert(history.view() =~= pv.update(
                k as int,
                (pv[k as int].0, spec_add_date(pv[k as int].1, label@, date)),
            ));
            if total % kicks_to_ping == 0 {
                Some(total)
            } else {
                None
            }
        },
        None => {
            let mut dates: Vec<i64> = Vec::new();
            dates.push(date);
            let mut weapons: Vec<WeaponKicks> = Vec::new();
            weapons.push(WeaponKicks { weapon: label, dates });
            history.players.push(PlayerKicks { player: player_name, weapons });
            proof {
                assert(weapons_view(weapons@) =~= seq![(label@, seq![date])]);
            }
            assert(history.view() =~= pv.push((player_name@, seq![(label@, seq![date])])));
            None
        },
    }
}

/// One field of a stored history row after the player's name: a weapon
/// name, or the time of a kick for the weapon named last.
pub enum HistoryField {
    Text(String),
    Date(i64),
}

pub open spec fn field_view(f: HistoryField) -> Result<Seq<char>, i64> {
    match f {
        HistoryField::Text(t) => Ok(t@),
        HistoryField::Date(d) => Err(d),
    }
}

/// Reading a row: a weapon name starts an empty list for that weapon (an
/// earlier list of the same name is emptied) and becomes the current weapon;
/// a date goes to the current weapon's list, and is skipped while no list
/// of that name exists. The second component is the current weapon.
pub open spec fn spec_read_fields(fields: Seq<Result<Seq<char>, i64>>) -> (Seq<(Seq<char>, Seq<i64>)>, Seq<char>)
    decreases fields.len(),
{
    if fields.len() == 0 {
        (Seq::empty(), Seq::empty())
    } else {
        let (wv, current) = spec_read_fields(fields.drop_last());
        match fields.last() {
            Ok(t) => match first_named(|j: int| wv[j].0, 0, wv.len() as int, t) {
                Some(j) => (wv.update(j, (t, Seq::empty())), t),
                None => (wv.push((t, Seq::empty())), t),
            },
            Err(d) => match first_named(|j: int| wv[j].0, 0, wv.len() as int, current) {
                Some(j) => (wv.update(j, (wv[j].0, wv[j].1.push(d))), current),
                None => (wv, current),
            },
        }
    }
}

/// The weapon records of one stored history row.
pub fn weapon_records_from_fields(fields: &Vec<HistoryField>) -> (r: Vec<WeaponKicks>)
    ensures
        weapons_view(r@) == spec_read_fields(fields@.map_values(|f: HistoryField| field_view(f))).0,
{
    let ghost fv = fields@.map_values(|f: HistoryField| field_view(f));
    let mut ws: Vec<WeaponKicks> = Vec::new();
    let mut current = String::new();
    let mut i: usize = 0;
    while i < fields.len()
        invariant
            i <= fields@.len(),
            fv == fields@.map_values(|f: HistoryField| field_view(f)),
            (weapons_view(ws@), current@) == spec_read_fields(fv.take(i as int)),
        decreases fields.len() - i,
    {
        let ghost wv = weapons_view(ws@);
        proof {
            assert(fv.take(i + 1).drop_last() =~= fv.take(i as int));
            assert(fv.take(i + 1).last() == field_view(fields@[i as int]));
        }
        match &fields[i] {
            HistoryField::Text(t) => {
                proof {
                    lemma_first_named(|j: int| wv[j].0, 0, wv.len() as int, t@);
                }
                match find_weapon(&ws, t) {
                    Some(j) => {
                        ws.set(j, WeaponKicks { weapon: t.clone(), dates: Vec::new() });
                        assert(weapons_view(ws@) =~= wv.update(j as int, (t@, Seq::empty())));
                    },
                    None => {
                        ws.push(WeaponKicks { weapon: t.clone(), dates: Vec::new() });
                        assert(weapons_view(ws@) =~= wv.push((t@, Seq::empty())));
                    },
                }
                current = t.clone();
            },
            HistoryField::Date(d) => {
                proof {
                    lemma_first_named(|j: int| wv[j].0, 0, wv.len() as int, current@);
                }
                if let Some(j) = find_weapon(&ws, &current) {
                    let mut w = ws.remove(j);
                    w.dates.push(*d);
                    ws.insert(j, w);
                    assert(weapons_view(ws@) =~= wv.update(
                        j as int,
                        (wv[j as int].0, wv[j as int].1.push(*d)),
                    ));
                }
            },
        }
        i = i + 1;
    }
    proof {
        assert(fv.take(i as int) =~= fv);
    }
    ws
}

impl KickHistory {
    /// Stores the record of a player, replacing an earlier record of the same
    /// name.
    pub fn set_player_record(&mut self, player: String, weapons: Vec<WeaponKicks>)
        ensures
            first_named(|k: int| old(self).view()[k].0, 0, old(self).view().len() as int, player@) matches Some(k)
                ==> final(self).view() == old(self).view().update(k, (player@, weapons_view(weapons@))),
            first_named(|k: int| old(self).view()[k].0, 0, old(self).view().len() as int, player@) is None
                ==> final(self).view() == old(self).view().push((player@, weapons_view(weapons@))),
    {
        let ghost pv = self.view();
        proof {
            lemma_first_named(|k: int| pv[k].0, 0, pv.len() as int, player@);
        }
        match find_player(&self.players, &player) {
            Some(k) => {
                self.players.set(k, PlayerKicks { player, weapons });
                assert(self.view() =~= pv.update(k as int, (self.players@[k as int].player@, weapons_view(self.players@[k as int].weapons@))));
            },
            None => {
                self.players.push(PlayerKicks { player, weapons });
                assert(self.view() =~= pv.push((self.players@.last().player@, weapons_view(self.players@.last().weapons@))));
            },
        }
    }
}

} // verus!
