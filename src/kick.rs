use vstd::prelude::*;
use vstd::string::StringExecFns;

use crate::cycle::{GameState, RecordWeapon};
use crate::roster::{spec_find_player, ServerDetails};
use crate::weapon::WeaponClasses;

verus! {

/// A kick to send to the game backend.
pub struct KickRequest {
    pub game_id: String,
    pub persona_id: String,
    pub player_name: String,
    pub reason: String,
    pub category: WeaponClasses,
}

/// What became of a detected violation.
pub enum KickOutcome {
    /// The player was kicked before in this session: nothing to do.
    AlreadyKicked,
    /// The player was found in the roster: send this kick.
    Kick(KickRequest),
    /// The player is not in the roster yet: queued for the next refresh.
    Queued,
    /// A queued player is still not in the roster: the entry was dropped.
    Dropped,
}

/// The reason shown to a kicked player.
pub open spec fn kick_reason(label: Seq<char>) -> Seq<char> {
    "No "@ + label + ", Read Rules"@
}

pub fn reason_for(label: &String) -> (r: String)
    ensures
        r@ == kick_reason(label@),
{
    let mut r = String::from_str("No ");
    r.append(label.as_str());
    r.append(", Read Rules");
    r
}

/// Where the roster resolves a detected name.
pub open spec fn spec_resolve(
    server: &ServerDetails,
    name: Seq<char>,
    scores1: Seq<u32>,
    scores2: Seq<u32>,
    threshold: u32,
) -> Option<(Seq<char>, Seq<char>)> {
    spec_find_player(server.team1@, server.team2@, name, scores1, scores2, threshold)
}

/// Handles one detected violation of `player_name` using `banned_weapon`
/// (its display label) of the given category.
///
/// `is_pending` tells whether this is a retry of a queued violation after a
/// roster refresh. `scores1` and `scores2` hold the similarity of the name to
/// each entry of team 1 and team 2, in roster order (an entry without a
/// score is no fuzzy match); `threshold` is the player-name threshold.
pub fn kick_player(
    game_state: &mut GameState,
    server: &ServerDetails,
    player_name: &String,
    banned_weapon: &String,
    category: WeaponClasses,
    is_pending: bool,
    scores1: &Vec<u32>,
    scores2: &Vec<u32>,
    threshold: u32,
) -> (r: KickOutcome)
    requires
        old(game_state).wf(),
    ensures
        final(game_state).wf(),
        final(game_state).rotation() == old(game_state).rotation(),
        // A player kicked before is left alone: no second kick, no change.
        old(game_state).kicked().contains(player_name@) ==> {
            &&& r is AlreadyKicked
            &&& final(game_state).kicked() == old(game_state).kicked()
            &&& final(game_state).pending() == old(game_state).pending()
        },
        // Resolved: kick the roster's player, remember the roster's name, and
        // settle a retried entry.
        !old(game_state).kicked().contains(player_name@) && spec_resolve(
            server,
            player_name@,
            scores1@,
            scores2@,
            threshold,
        ) is Some ==> {
            let found = spec_resolve(server, player_name@, scores1@, scores2@, threshold)->0;
            &&& r is Kick
            &&& r->0.game_id@ == server.game_id@
            &&& r->0.player_name@ == found.0
            &&& r->0.persona_id@ == found.1
            &&& r->0.reason@ == kick_reason(banned_weapon@)
            &&& r->0.category == category
            &&& final(game_state).kicked() == old(game_state).kicked().insert(found.0)
            &&& final(game_state).pending() == if is_pending {
                old(game_state).pending().remove(player_name@)
            } else {
                old(game_state).pending()
            }
        },
        // Not in the roster: a live detection is queued (replacing an older
        // entry); a retried entry is dropped, not queued again.
        !old(game_state).kicked().contains(player_name@) && spec_resolve(
            server,
            player_name@,
            scores1@,
            scores2@,
            threshold,
        ) is None ==> {
            &&& final(game_state).kicked() == old(game_state).kicked()
            &&& !is_pending ==> r is Queued && final(game_state).pending() == old(
                game_state,
            ).pending().insert(player_name@, (banned_weapon@, category))
            &&& is_pending ==> r is Dropped && final(game_state).pending() == old(
                game_state,
            ).pending().remove(player_name@)
        },
{
    if game_state.is_kicked(player_name) {
        return KickOutcome::AlreadyKicked;
    }
    match server.find_player(player_name, scores1, scores2, threshold) {
        Some((player_actual_name, id)) => {
            let request = KickRequest {
                game_id: server.game_id.clone(),
                persona_id: id,
                player_name: player_actual_name.clone(),
                reason: reason_for(banned_weapon),
                category,
            };
            game_state.add_kicked(player_actual_name);
            if is_pending {
                game_state.drop_pending(player_name);
            }
            KickOutcome::Kick(request)
        },
        None => {
            if is_pending {
                game_state.drop_pending(player_name);
                KickOutcome::Dropped
            } else {
                game_state.queue_pending(
                    player_name.clone(),
                    RecordWeapon { name: banned_weapon.clone(), category },
                );
                KickOutcome::Queued
            }
        },
    }
}

} // verus!
