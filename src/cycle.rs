use vstd::prelude::*;

use crate::similarity::spec_is_similar;
use crate::status::{BotStatus, StatusTypes};
use crate::weapon::WeaponClasses;

verus! {

/// A detected banned weapon: its display label and category.
pub struct RecordWeapon {
    pub name: String,
    pub category: WeaponClasses,
}

/// A violator that could not be resolved against the roster yet.
pub struct PendingKick {
    pub player: String,
    pub weapon: RecordWeapon,
}

/// Rotation progress and kick bookkeeping, kept for the whole session.
pub struct GameState {
    pub no_player_count: u8,
    pub last_player: String,
    pub same_player_count: u8,
    pub rotate_key: char,
    pub already_kicked_list_players: Vec<String>,
    pub pending_kick_players: Vec<PendingKick>,
}

/// The rotation part of the state, as plain values.
pub struct RotationView {
    pub no_player_count: u8,
    pub last_player: Seq<char>,
    pub same_player_count: u8,
    pub rotate_key: char,
}

/// One name read from the spectator view, with its similarity score to the
/// previously read name.
pub struct Reading {
    pub name: Seq<char>,
    pub score: u32,
}

pub open spec fn names_of(v: Seq<String>) -> Seq<Seq<char>> {
    v.map_values(|s: String| s@)
}

pub open spec fn has_pending(v: Seq<PendingKick>, k: Seq<char>) -> bool {
    exists|i: int| 0 <= i < v.len() && (#[trigger] v[i]).player@ == k
}

pub open spec fn pending_value(e: PendingKick) -> (Seq<char>, WeaponClasses) {
    (e.weapon.name@, e.weapon.category)
}

/// The pending kicks as a map from player name to (label, category).
pub open spec fn pending_map(v: Seq<PendingKick>) -> Map<Seq<char>, (Seq<char>, WeaponClasses)> {
    Map::new(
        |k: Seq<char>| has_pending(v, k),
        |k: Seq<char>|
            pending_value(v[choose|i: int| 0 <= i < v.len() && (#[trigger] v[i]).player@ == k]),
    )
}

pub open spec fn pending_unique(v: Seq<PendingKick>) -> bool {
    forall|i: int, j: int|
        0 <= i < v.len() && 0 <= j < v.len() && i != j ==> (#[trigger] v[i]).player@ != (
        #[trigger] v[j]).player@
}

/// The two directions of camera rotation; the other one of `k`.
pub open spec fn spec_toggle(k: char) -> char {
    if k == 'e' {
        'q'
    } else {
        'e'
    }
}

/// A name is read when its UTF-8 text has at least three bytes; anything
/// shorter means no player name was on screen.
pub open spec fn is_name(name: Seq<char>) -> bool {
    vstd::utf8::encode_utf8(name).len() >= 3
}

pub open spec fn inc(c: u8) -> u8 {
    if c < u8::MAX {
        (c + 1) as u8
    } else {
        c
    }
}

/// One cycle of rotation tracking.
///
/// No name read: the no-player counter grows, and at two in a row the bot
/// waits for a new map and the counter restarts. A name read: the bot is
/// online and the no-player counter restarts; a name similar to the last one
/// counts one more repetition (at two the rotation direction flips, at ten
/// the bot has crashed), a dissimilar one resets the repetitions; the name
/// becomes the last name. Crashed is kept until recovery.
pub open spec fn spec_observe(
    r: RotationView,
    status: StatusTypes,
    reading: Reading,
    threshold: u32,
) -> (RotationView, StatusTypes) {
    if !is_name(reading.name) {
        let c = inc(r.no_player_count);
        if c == 2 {
            (
                RotationView { no_player_count: 0, ..r },
                if status == StatusTypes::Crashed {
                    StatusTypes::Crashed
                } else {
                    StatusTypes::WaitingForNewMap
                },
            )
        } else {
            (RotationView { no_player_count: c, ..r }, status)
        }
    } else {
        let similar = spec_is_similar(reading.score, threshold);
        let same = if similar {
            inc(r.same_player_count)
        } else {
            0
        };
        let key = if similar && same == 2 {
            spec_toggle(r.rotate_key)
        } else {
            r.rotate_key
        };
        let st = if status == StatusTypes::Crashed || (similar && same == 10) {
            StatusTypes::Crashed
        } else {
            StatusTypes::Online
        };
        (
            RotationView {
                no_player_count: 0,
                last_player: reading.name,
                same_player_count: same,
                rotate_key: key,
            },
            st,
        )
    }
}

/// Rotation tracking over a sequence of cycles.
pub open spec fn spec_run(
    r: RotationView,
    status: StatusTypes,
    readings: Seq<Reading>,
    threshold: u32,
) -> (RotationView, StatusTypes)
    decreases readings.len(),
{
    if readings.len() == 0 {
        (r, status)
    } else {
        let prev = spec_run(r, status, readings.drop_last(), threshold);
        spec_observe(prev.0, prev.1, readings.last(), threshold)
    }
}

impl GameState {
    pub open spec fn rotation(&self) -> RotationView {
        RotationView {
            no_player_count: self.no_player_count,
            last_player: self.last_player@,
            same_player_count: self.same_player_count,
            rotate_key: self.rotate_key,
        }
    }

    /// The names kicked in this session.
    pub open spec fn kicked(&self) -> Set<Seq<char>> {
        names_of(self.already_kicked_list_players@).to_set()
    }

    /// The violators waiting for a roster refresh.
    pub open spec fn pending(&self) -> Map<Seq<char>, (Seq<char>, WeaponClasses)> {
        pending_map(self.pending_kick_players@)
    }

    pub open spec fn wf(&self) -> bool {
        &&& self.rotate_key == 'e' || self.rotate_key == 'q'
        &&& pending_unique(self.pending_kick_players@)
    }

    /// The state at startup: nothing read, nothing kicked, rotating with `e`.
    pub fn default() -> (r: GameState)
        ensures
            r.wf(),
            r.rotation() == (RotationView {
                no_player_count: 0,
                last_player: Seq::empty(),
                same_player_count: 0,
                rotate_key: 'e',
            }),
            r.kicked() == Set::<Seq<char>>::empty(),
            r.pending() == Map::<Seq<char>, (Seq<char>, WeaponClasses)>::empty(),
    {
        let r = GameState {
            no_player_count: 0,
            last_player: String::new(),
            same_player_count: 0,
            rotate_key: 'e',
            already_kicked_list_players: Vec::new(),
            pending_kick_players: Vec::new(),
        };
        assert(r.kicked() =~= Set::<Seq<char>>::empty());
        assert(r.pending() =~= Map::<Seq<char>, (Seq<char>, WeaponClasses)>::empty());
        r
    }

    /// Applies what one detection cycle read from the spectator view.
    ///
    /// `name` is the recognised player name and `similarity_to_last` its
    /// score against `last_player`; `threshold` is the player-name threshold.
    pub fn observe_player_name(
        &mut self,
        bot_status: &mut BotStatus,
        name: &str,
        similarity_to_last: u32,
        threshold: u32,
    )
        requires
            old(self).wf(),
        ensures
            final(self).wf(),
            (final(self).rotation(), final(bot_status).status) == spec_observe(
                old(self).rotation(),
                old(bot_status).status,
                Reading { name: name@, score: similarity_to_last },
                threshold,
            ),
            is_name(name@) ==> (final(bot_status).last_valid_name matches Some(n) && n@ == name@),
            !is_name(name@) ==> final(bot_status).last_valid_name == old(bot_status).last_valid_name,
            final(bot_status).timer_start == old(bot_status).timer_start,
            final(bot_status).map_start == old(bot_status).map_start,
            final(self).already_kicked_list_players == old(self).already_kicked_list_players,
            final(self).pending_kick_players == old(self).pending_kick_players,
    {
        if name.as_bytes().len() < 3 {
            if self.no_player_count < u8::MAX {
                self.no_player_count = self.no_player_count + 1;
            }
            if self.no_player_count == 2 {
                if bot_status.status != StatusTypes::Crashed {
                    bot_status.status = StatusTypes::WaitingForNewMap;
                }
                self.no_player_count = 0;
            }
            return;
        }
        if bot_status.status != StatusTypes::Crashed {
            bot_status.status = StatusTypes::Online;
        }
        self.no_player_count = 0;
        if similarity_to_last >= threshold {
            if self.same_player_count < u8::MAX {
                self.same_player_count = self.same_player_count + 1;
            }
            if self.same_player_count == 2 {
                // Go the other way.
                self.rotate_key = if self.rotate_key == 'e' {
                    'q'
                } else {
                    'e'
                };
            } else if self.same_player_count == 10 {
                bot_status.status = StatusTypes::Crashed;
            }
        } else {
            self.same_player_count = 0;
        }
        self.last_player = name.to_owned();
        bot_status.last_valid_name = Some(name.to_owned());
    }
}

/// Every reading names a player and is similar to the name before it.
pub open spec fn all_repeats(readings: Seq<Reading>, threshold: u32) -> bool {
    forall|i: int|
        0 <= i < readings.len() ==> is_name((#[trigger] readings[i]).name) && spec_is_similar(
            readings[i].score,
            threshold,
        )
}

/// Names that are never similar to the name before them never count as a
/// repetition: from no repetition, the count stays zero after any number of
/// such cycles.
pub proof fn lemma_dissimilar_names_never_repeat(
    r: RotationView,
    status: StatusTypes,
    readings: Seq<Reading>,
    threshold: u32,
)
    requires
        r.same_player_count == 0,
        forall|i: int| 0 <= i < readings.len() ==> (#[trigger] readings[i]).score < threshold,
    ensures
        spec_run(r, status, readings, threshold).0.same_player_count == 0,
    decreases readings.len(),
{
    if readings.len() > 0 {
        let rest = readings.drop_last();
        assert forall|i: int| 0 <= i < rest.len() implies (#[trigger] rest[i]).score < threshold by {
            assert(rest[i] == readings[i]);
        }
        lemma_dissimilar_names_never_repeat(r, status, rest, threshold);
        assert(readings.last() == readings[readings.len() - 1]);
    }
}

/// A run of repeated names from no repetition: the count equals the length of
/// the run, the direction has flipped once from the second repetition on, and
/// the bot is online until the tenth repetition, crashed from then on.
pub proof fn lemma_repeat_run(
    r: RotationView,
    status: StatusTypes,
    readings: Seq<Reading>,
    threshold: u32,
)
    requires
        r.same_player_count == 0,
        status != StatusTypes::Crashed,
        readings.len() <= 255,
        all_repeats(readings, threshold),
    ensures
        spec_run(r, status, readings, threshold).0.same_player_count == readings.len(),
        spec_run(r, status, readings, threshold).0.rotate_key == if readings.len() >= 2 {
            spec_toggle(r.rotate_key)
        } else {
            r.rotate_key
        },
        readings.len() == 0 ==> spec_run(r, status, readings, threshold).1 == status,
        1 <= readings.len() < 10 ==> spec_run(r, status, readings, threshold).1
            == StatusTypes::Online,
        readings.len() >= 10 ==> spec_run(r, status, readings, threshold).1
            == StatusTypes::Crashed,
    decreases readings.len(),
{
    if readings.len() > 0 {
        let rest = readings.drop_last();
        assert forall|i: int| 0 <= i < rest.len() implies is_name((#[trigger] rest[i]).name)
            && spec_is_similar(rest[i].score, threshold) by {
            assert(rest[i] == readings[i]);
        }
        lemma_repeat_run(r, status, rest, threshold);
        assert(readings.last() == readings[readings.len() - 1]);
    }
}

/// The first `k` readings of a run of repetitions are a run of repetitions.
proof fn lemma_prefix_repeats(readings: Seq<Reading>, threshold: u32, k: int)
    requires
        0 <= k <= readings.len(),
        all_repeats(readings, threshold),
    ensures
        all_repeats(readings.take(k), threshold),
{
    assert forall|i: int| 0 <= i < readings.take(k).len() implies is_name(
        (#[trigger] readings.take(k)[i]).name,
    ) && spec_is_similar(readings.take(k)[i].score, threshold) by {
        assert(readings.take(k)[i] == readings[i]);
    }
}

/// The same name read on ten cycles in a row crashes the bot exactly once:
/// none of the first nine cycles leaves it crashed, the tenth does, although
/// the rotation direction flipped on the way.
pub proof fn lemma_ten_repeats_crash_once(
    r: RotationView,
    status: StatusTypes,
    readings: Seq<Reading>,
    threshold: u32,
)
    requires
        r.same_player_count == 0,
        status != StatusTypes::Crashed,
        readings.len() == 10,
        all_repeats(readings, threshold),
    ensures
        forall|k: int|
            0 <= k < 10 ==> #[trigger] spec_run(r, status, readings.take(k), threshold).1
                != StatusTypes::Crashed,
        spec_run(r, status, readings, threshold).1 == StatusTypes::Crashed,
{
    assert forall|k: int| 0 <= k < 10 implies #[trigger] spec_run(
        r,
        status,
        readings.take(k),
        threshold,
    ).1 != StatusTypes::Crashed by {
        lemma_prefix_repeats(readings, threshold, k);
        lemma_repeat_run(r, status, readings.take(k), threshold);
    }
    lemma_repeat_run(r, status, readings, threshold);
}

/// Crashed is terminal for rotation tracking: no reading leaves it.
pub proof fn lemma_crashed_is_kept(r: RotationView, reading: Reading, threshold: u32)
    ensures
        spec_observe(r, StatusTypes::Crashed, reading, threshold).1 == StatusTypes::Crashed,
{
}

/// The rotation direction flips exactly once in a run of repetitions, on the
/// second one, and a flip is undone by the next flip: the direction
/// alternates between its two values.
pub proof fn lemma_rotation_flips_on_second_repeat(
    r: RotationView,
    status: StatusTypes,
    readings: Seq<Reading>,
    threshold: u32,
)
    requires
        r.rotate_key == 'e' || r.rotate_key == 'q',
        r.same_player_count == 0,
        status != StatusTypes::Crashed,
        readings.len() <= 255,
        all_repeats(readings, threshold),
    ensures
        forall|k: int|
            0 <= k <= readings.len() ==> #[trigger] spec_run(
                r,
                status,
                readings.take(k),
                threshold,
            ).0.rotate_key == if k >= 2 {
                spec_toggle(r.rotate_key)
            } else {
                r.rotate_key
            },
        spec_toggle(r.rotate_key) != r.rotate_key,
        spec_toggle(spec_toggle(r.rotate_key)) == r.rotate_key,
{
    assert forall|k: int| 0 <= k <= readings.len() implies #[trigger] spec_run(
        r,
        status,
        readings.take(k),
        threshold,
    ).0.rotate_key == if k >= 2 {
        spec_toggle(r.rotate_key)
    } else {
        r.rotate_key
    } by {
        lemma_prefix_repeats(readings, threshold, k);
        lemma_repeat_run(r, status, readings.take(k), threshold);
    }
}

/// The cycle flips the rotation direction: a name is read that repeats the
/// last one for the second time in a row.
pub open spec fn spec_flips(r: RotationView, reading: Reading, threshold: u32) -> bool {
    is_name(reading.name) && spec_is_similar(reading.score, threshold) && inc(r.same_player_count)
        == 2
}

/// How many cycles of a run flipped the rotation direction.
pub open spec fn spec_flip_count(
    r: RotationView,
    status: StatusTypes,
    readings: Seq<Reading>,
    threshold: u32,
) -> nat
    decreases readings.len(),
{
    if readings.len() == 0 {
        0
    } else {
        let prev = spec_run(r, status, readings.drop_last(), threshold);
        spec_flip_count(r, status, readings.drop_last(), threshold) + if spec_flips(
            prev.0,
            readings.last(),
            threshold,
        ) {
            1nat
        } else {
            0nat
        }
    }
}

/// The rotation direction alternates and never drifts: over any run of
/// cycles it changes exactly on the flipping cycles, so it is the starting
/// direction after an even number of flips and the other one after an odd
/// number.
pub proof fn lemma_rotation_alternates(
    r: RotationView,
    status: StatusTypes,
    readings: Seq<Reading>,
    threshold: u32,
)
    requires
        r.rotate_key == 'e' || r.rotate_key == 'q',
    ensures
        spec_run(r, status, readings, threshold).0.rotate_key == 'e' || spec_run(
            r,
            status,
            readings,
            threshold,
        ).0.rotate_key == 'q',
        spec_run(r, status, readings, threshold).0.rotate_key == if spec_flip_count(
            r,
            status,
            readings,
            threshold,
        ) % 2 == 0 {
            r.rotate_key
        } else {
            spec_toggle(r.rotate_key)
        },
    decreases readings.len(),
{
    if readings.len() > 0 {
        lemma_rotation_alternates(r, status, readings.drop_last(), threshold);
    }
}

} // verus!
