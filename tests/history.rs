use kickbot::elapsed::get_time_difference_string;
use kickbot::ledger::{add_to_player_kick_record, weapon_records_from_fields, HistoryField, KickHistory};
use kickbot::weapon::{BannedItems, Vehicle, Weapon, WeaponClasses};

fn items() -> BannedItems {
    BannedItems {
        weapon: Weapon { pretty_name: "SMG08/18".to_string(), names: vec![] },
        heavy_bomber: Vehicle {
            pretty_name: "heavy bomber".to_string(),
            primary_names: vec![],
            secondary_names: vec![],
        },
        lmg: Vehicle { pretty_name: "mortar truck".to_string(), primary_names: vec![], secondary_names: vec![] },
    }
}

fn dump(h: &KickHistory) -> Vec<(String, Vec<(String, Vec<i64>)>)> {
    h.players
        .iter()
        .map(|p| {
            (
                p.player.clone(),
                p.weapons.iter().map(|w| (w.weapon.clone(), w.dates.clone())).collect(),
            )
        })
        .collect()
}

#[test]
fn kicks_are_recorded_and_every_nth_is_announced() {
    let mut h = KickHistory::new();
    let it = items();
    assert_eq!(add_to_player_kick_record(&mut h, &it, "Alice".to_string(), WeaponClasses::SMG08, 100, 2), None);
    assert_eq!(add_to_player_kick_record(&mut h, &it, "Alice".to_string(), WeaponClasses::LMG, 200, 2), Some(2));
    assert_eq!(add_to_player_kick_record(&mut h, &it, "Alice".to_string(), WeaponClasses::SMG08, 300, 2), None);
    assert_eq!(add_to_player_kick_record(&mut h, &it, "Alice".to_string(), WeaponClasses::HeavyBomber, 400, 2), Some(4));
    assert_eq!(
        dump(&h),
        vec![(
            "Alice".to_string(),
            vec![
                ("smg08".to_string(), vec![100, 300]),
                ("mortar truck".to_string(), vec![200]),
                ("heavy bomber".to_string(), vec![400]),
            ]
        )]
    );
}

#[test]
fn allowed_guns_and_hmg_are_not_recorded() {
    let mut h = KickHistory::new();
    let it = items();
    assert_eq!(add_to_player_kick_record(&mut h, &it, "Bob".to_string(), WeaponClasses::AllowedPrimaryGuns, 1, 1), None);
    assert_eq!(add_to_player_kick_record(&mut h, &it, "Bob".to_string(), WeaponClasses::HMG, 1, 1), None);
    assert!(h.players.is_empty());
}

#[test]
fn stored_row_fields_become_weapon_records() {
    let fields = vec![
        HistoryField::Date(5),
        HistoryField::Text("smg08".to_string()),
        HistoryField::Date(10),
        HistoryField::Date(20),
        HistoryField::Text("heavy bomber".to_string()),
        HistoryField::Date(30),
    ];
    let ws = weapon_records_from_fields(&fields);
    let v: Vec<(String, Vec<i64>)> = ws.iter().map(|w| (w.weapon.clone(), w.dates.clone())).collect();
    assert_eq!(
        v,
        vec![("smg08".to_string(), vec![10, 20]), ("heavy bomber".to_string(), vec![30])]
    );
}

#[test]
fn replacing_a_player_record() {
    let mut h = KickHistory::new();
    h.set_player_record("Carl".to_string(), vec![]);
    h.set_player_record("Dave".to_string(), vec![]);
    let ws = weapon_records_from_fields(&vec![HistoryField::Text("smg08".to_string()), HistoryField::Date(7)]);
    h.set_player_record("Carl".to_string(), ws);
    assert_eq!(
        dump(&h),
        vec![
            ("Carl".to_string(), vec![("smg08".to_string(), vec![7])]),
            ("Dave".to_string(), vec![])
        ]
    );
}

#[test]
fn elapsed_time_text() {
    assert_eq!(get_time_difference_string(0), "0 minutes");
    assert_eq!(get_time_difference_string(1), "1 minute");
    assert_eq!(get_time_difference_string(59), "59 minutes");
    assert_eq!(get_time_difference_string(60), "1 hour and 0 minutes");
    assert_eq!(get_time_difference_string(125), "2 hours and 5 minutes");
    assert_eq!(get_time_difference_string(6001), "100 hours and 1 minutes");
}

#[test]
fn decimal_digits() {
    let mut s = String::from("n=");
    kickbot::elapsed::push_decimal(&mut s, 1_234_567_890);
    assert_eq!(s, "n=1234567890");
    let mut z = String::new();
    kickbot::elapsed::push_decimal(&mut z, 0);
    assert_eq!(z, "0");
}
