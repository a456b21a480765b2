use gestalt_ratio::gestalt_ratio;
use kickbot::cycle::GameState;
use kickbot::kick::{kick_player, reason_for, KickOutcome};
use kickbot::roster::{insert_player, RosterEntry, ServerDetails};
use kickbot::similarity::SCALE;
use kickbot::status::{BotStatus, StatusTypes};
use kickbot::weapon::WeaponClasses;

const PLAYER_THRESHOLD: u32 = 800_000;

fn score(a: &str, b: &str) -> u32 {
    (gestalt_ratio(a, b) * SCALE as f64).round() as u32
}

fn team(entries: &[(&str, &str)]) -> Vec<RosterEntry> {
    let mut t = Vec::new();
    for (name, id) in entries {
        insert_player(&mut t, name.to_string(), id.to_string());
    }
    t
}

fn server(team1: &[(&str, &str)], team2: &[(&str, &str)]) -> ServerDetails {
    let mut s = ServerDetails::default();
    s.game_id = "game-7".to_string();
    s.team1 = team(team1);
    s.team2 = team(team2);
    s
}

fn scores(server: &ServerDetails, name: &str) -> (Vec<u32>, Vec<u32>) {
    (
        server.team1.iter().map(|e| score(&e.name, name)).collect(),
        server.team2.iter().map(|e| score(&e.name, name)).collect(),
    )
}

fn kick(
    state: &mut GameState,
    server: &ServerDetails,
    name: &str,
    label: &str,
    category: WeaponClasses,
    is_pending: bool,
) -> KickOutcome {
    let (s1, s2) = scores(server, name);
    kick_player(
        state,
        server,
        &name.to_string(),
        &label.to_string(),
        category,
        is_pending,
        &s1,
        &s2,
        PLAYER_THRESHOLD,
    )
}

fn pending_names(state: &GameState) -> Vec<String> {
    state.pending_kick_players.iter().map(|p| p.player.clone()).collect()
}

#[test]
fn fuzzy_name_resolves_to_canonical_roster_entry() {
    let srv = server(&[("Alice", "1"), ("Bob", "2")], &[("Carl", "3")]);
    let mut state = GameState::default();
    assert!(score("Alice", "Alise") >= PLAYER_THRESHOLD);
    match kick(&mut state, &srv, "Alise", "SMG08/18", WeaponClasses::SMG08, false) {
        KickOutcome::Kick(req) => {
            assert_eq!(req.persona_id, "1");
            assert_eq!(req.player_name, "Alice");
            assert_eq!(req.game_id, "game-7");
            assert_eq!(req.reason, "No SMG08/18, Read Rules");
            assert_eq!(req.category, WeaponClasses::SMG08);
        }
        _ => panic!("expected a kick"),
    }
    assert_eq!(state.already_kicked_list_players, vec!["Alice".to_string()]);
    assert!(state.pending_kick_players.is_empty());
    // The same violator again: no second kick.
    assert!(matches!(
        kick(&mut state, &srv, "Alice", "SMG08/18", WeaponClasses::SMG08, false),
        KickOutcome::AlreadyKicked
    ));
}

#[test]
fn unknown_player_is_kicked_after_roster_refresh() {
    let mut srv = server(&[("Alice", "1"), ("Bob", "2")], &[("Carl", "3")]);
    let mut state = GameState::default();
    assert!(matches!(
        kick(&mut state, &srv, "Dave", "heavy bomber", WeaponClasses::HeavyBomber, false),
        KickOutcome::Queued
    ));
    assert_eq!(pending_names(&state), vec!["Dave".to_string()]);
    assert_eq!(state.pending_kick_players[0].weapon.name, "heavy bomber");
    assert_eq!(state.pending_kick_players[0].weapon.category, WeaponClasses::HeavyBomber);

    insert_player(&mut srv.team2, "Dave".to_string(), "4".to_string());
    let pending: Vec<(String, String, WeaponClasses)> = state
        .pending_kick_players
        .iter()
        .map(|p| (p.player.clone(), p.weapon.name.clone(), p.weapon.category))
        .collect();
    let mut ids = Vec::new();
    for (player, label, category) in pending {
        if let KickOutcome::Kick(req) = kick(&mut state, &srv, &player, &label, category, true) {
            ids.push(req.persona_id);
        }
    }
    assert_eq!(ids, vec!["4".to_string()]);
    assert!(state.pending_kick_players.is_empty());
    assert_eq!(state.already_kicked_list_players, vec!["Dave".to_string()]);
}

#[test]
fn kicked_name_is_a_no_op() {
    let srv = server(&[("Alice", "1")], &[]);
    let mut state = GameState::default();
    state.already_kicked_list_players.push("Zed".to_string());
    assert!(matches!(
        kick(&mut state, &srv, "Zed", "SMG08/18", WeaponClasses::SMG08, false),
        KickOutcome::AlreadyKicked
    ));
    assert!(state.pending_kick_players.is_empty());
    assert_eq!(state.already_kicked_list_players, vec!["Zed".to_string()]);
}

#[test]
fn retried_entry_for_departed_player_is_dropped() {
    let srv = server(&[("Alice", "1")], &[("Carl", "3")]);
    let mut state = GameState::default();
    kick(&mut state, &srv, "Eve", "mortar truck", WeaponClasses::LMG, false);
    kick(&mut state, &srv, "Frank", "mortar truck", WeaponClasses::LMG, false);
    assert_eq!(pending_names(&state), vec!["Eve".to_string(), "Frank".to_string()]);
    assert!(matches!(
        kick(&mut state, &srv, "Eve", "mortar truck", WeaponClasses::LMG, true),
        KickOutcome::Dropped
    ));
    assert_eq!(pending_names(&state), vec!["Frank".to_string()]);
}

#[test]
fn live_detection_replaces_pending_entry() {
    let srv = server(&[("Alice", "1")], &[]);
    let mut state = GameState::default();
    kick(&mut state, &srv, "Eve", "mortar truck", WeaponClasses::LMG, false);
    kick(&mut state, &srv, "Eve", "SMG08/18", WeaponClasses::SMG08, false);
    assert_eq!(pending_names(&state), vec!["Eve".to_string()]);
    assert_eq!(state.pending_kick_players[0].weapon.name, "SMG08/18");
    assert_eq!(state.pending_kick_players[0].weapon.category, WeaponClasses::SMG08);
}

#[test]
fn exact_match_beats_more_similar_fuzzy_entry() {
    let srv = server(&[("Alicia", "1")], &[("Alice", "2")]);
    // The fuzzy entry in team 1 gets the top score, the exact one in team 2
    // a low one: the exact name still wins.
    let found = srv
        .find_player(&"Alice".to_string(), &vec![SCALE], &vec![0], PLAYER_THRESHOLD)
        .unwrap();
    assert_eq!(found, ("Alice".to_string(), "2".to_string()));
}

#[test]
fn first_fuzzy_entry_wins_and_no_match_is_none() {
    let srv = server(&[("Bob", "1"), ("Rob", "2")], &[("Carl", "3")]);
    let found = srv.find_player(&"Bobb".to_string(), &vec![900_000, 950_000], &vec![0], 800_000);
    assert_eq!(found, Some(("Bob".to_string(), "1".to_string())));
    let none = srv.find_player(&"Xyz".to_string(), &vec![10, 20], &vec![30], 800_000);
    assert_eq!(none, None);
}

#[test]
fn prune_keeps_only_players_still_on_a_team() {
    let srv = server(&[("Alice", "1")], &[("Carl", "3")]);
    let mut state = GameState::default();
    state.already_kicked_list_players = vec!["Alice".to_string(), "Gone".to_string(), "Carl".to_string()];
    state.prune_already_kicked(&srv);
    assert_eq!(state.already_kicked_list_players, vec!["Alice".to_string(), "Carl".to_string()]);
}

#[test]
fn reason_names_the_weapon() {
    assert_eq!(reason_for(&"heavy bomber".to_string()), "No heavy bomber, Read Rules");
}

#[test]
fn roster_insert_overwrites_same_name() {
    let mut t = team(&[("Alice", "1"), ("Bob", "2")]);
    insert_player(&mut t, "Alice".to_string(), "9".to_string());
    let v: Vec<(String, String)> = t.iter().map(|e| (e.name.clone(), e.id.clone())).collect();
    assert_eq!(v, vec![("Alice".to_string(), "9".to_string()), ("Bob".to_string(), "2".to_string())]);
}

#[test]
fn player_count_and_updated_flag() {
    let mut srv = server(&[("Alice", "1"), ("Bob", "2")], &[("Carl", "3")]);
    assert_eq!(srv.player_count(), 3);
    srv.updated = true;
    assert!(srv.is_updated());
    assert!(!srv.is_updated());
}

#[test]
fn tagged_name_brackets_platoon() {
    assert_eq!(kickbot::tagged_player_name("VG", "Alice"), "[VG]Alice");
    assert_eq!(kickbot::tagged_player_name("", "Alice"), "Alice");
}

fn bot_status() -> BotStatus {
    BotStatus {
        status: StatusTypes::WaitingForBF1,
        timer_start: std::time::Instant::now(),
        map_start: String::new(),
        last_valid_name: None,
    }
}

#[test]
fn dissimilar_names_keep_repeat_count_zero() {
    let mut state = GameState::default();
    let mut status = bot_status();
    for name in ["Alice", "Bob", "Carl", "Dave", "Eve"] {
        let s = score(name, &state.last_player);
        assert!(s < PLAYER_THRESHOLD);
        state.observe_player_name(&mut status, name, s, PLAYER_THRESHOLD);
        assert_eq!(state.same_player_count, 0);
    }
    assert_eq!(status.status, StatusTypes::Online);
    assert_eq!(status.last_valid_name, Some("Eve".to_string()));
    assert_eq!(state.rotate_key, 'e');
}

#[test]
fn ten_repeats_crash_once_and_flip_direction_on_second() {
    let mut state = GameState::default();
    let mut status = bot_status();
    state.observe_player_name(&mut status, "Alice", 0, PLAYER_THRESHOLD);
    let mut crashes = 0;
    for i in 1..=10u8 {
        let before = status.status;
        let s = score("Alice", &state.last_player);
        state.observe_player_name(&mut status, "Alice", s, PLAYER_THRESHOLD);
        assert_eq!(state.same_player_count, i);
        assert_eq!(state.rotate_key, if i >= 2 { 'q' } else { 'e' });
        if before != StatusTypes::Crashed && status.status == StatusTypes::Crashed {
            crashes += 1;
            assert_eq!(i, 10);
        }
    }
    assert_eq!(crashes, 1);
    // Crashed stays crashed.
    state.observe_player_name(&mut status, "Alice", SCALE, PLAYER_THRESHOLD);
    assert_eq!(status.status, StatusTypes::Crashed);
}

#[test]
fn rotation_flips_back_on_next_run() {
    let mut state = GameState::default();
    let mut status = bot_status();
    let names = ["Alice", "Alice", "Alice", "Bob", "Bob", "Bob"];
    let mut keys = Vec::new();
    for name in names {
        let s = score(name, &state.last_player);
        state.observe_player_name(&mut status, name, s, PLAYER_THRESHOLD);
        keys.push(state.rotate_key);
    }
    assert_eq!(keys, vec!['e', 'e', 'q', 'q', 'q', 'e']);
}

#[test]
fn two_empty_reads_wait_for_new_map() {
    let mut state = GameState::default();
    let mut status = bot_status();
    state.observe_player_name(&mut status, "Alice", 0, PLAYER_THRESHOLD);
    state.observe_player_name(&mut status, "", 0, PLAYER_THRESHOLD);
    assert_eq!(status.status, StatusTypes::Online);
    assert_eq!(state.no_player_count, 1);
    state.observe_player_name(&mut status, "ab", 0, PLAYER_THRESHOLD);
    assert_eq!(status.status, StatusTypes::WaitingForNewMap);
    assert_eq!(state.no_player_count, 0);
    assert_eq!(state.last_player, "Alice");
}

#[test]
fn a_name_between_empty_reads_restarts_the_count() {
    let mut state = GameState::default();
    let mut status = bot_status();
    state.observe_player_name(&mut status, "", 0, PLAYER_THRESHOLD);
    state.observe_player_name(&mut status, "Alice", 0, PLAYER_THRESHOLD);
    state.observe_player_name(&mut status, "", 0, PLAYER_THRESHOLD);
    assert_eq!(status.status, StatusTypes::Online);
    assert_eq!(state.no_player_count, 1);
}

#[test]
fn name_length_counts_bytes() {
    let mut state = GameState::default();
    let mut status = bot_status();
    // Two bytes: no name.
    state.observe_player_name(&mut status, "é", 0, PLAYER_THRESHOLD);
    assert_eq!(state.no_player_count, 1);
    assert_eq!(status.status, StatusTypes::WaitingForBF1);
    // Two characters, three bytes: a name.
    state.observe_player_name(&mut status, "éa", 0, PLAYER_THRESHOLD);
    assert_eq!(state.no_player_count, 0);
    assert_eq!(status.status, StatusTypes::Online);
    assert_eq!(state.last_player, "éa");
}

#[test]
fn entries_without_a_score_are_no_fuzzy_match() {
    let srv = server(&[("Bob", "1"), ("Rob", "2")], &[("Carl", "3")]);
    let found = srv.find_player(&"Robb".to_string(), &vec![0], &vec![], 800_000);
    assert_eq!(found, None);
    let found = srv.find_player(&"Robb".to_string(), &vec![0, 900_000, 900_000], &vec![], 800_000);
    assert_eq!(found, Some(("Rob".to_string(), "2".to_string())));
}

#[test]
fn rotation_alternates_over_several_runs() {
    let mut state = GameState::default();
    let mut status = bot_status();
    let names = ["Alice", "Alice", "Alice", "Bob", "Bob", "Bob", "Carl", "Carl", "Carl", "Carl"];
    let mut keys = Vec::new();
    for name in names {
        let s = score(name, &state.last_player);
        state.observe_player_name(&mut status, name, s, PLAYER_THRESHOLD);
        keys.push(state.rotate_key);
    }
    assert_eq!(keys, vec!['e', 'e', 'q', 'q', 'q', 'e', 'e', 'e', 'q', 'q']);
}
