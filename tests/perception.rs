use kickbot::cant_find;
use kickbot::enhance::{clamp, hue_window};
use kickbot::error::KickbotError;
use kickbot::pool::Executors;
use kickbot::similarity::{find_similar, Thresholds};
use kickbot::status::{cycle_key, status_after_refresh, status_after_window_lost, CycleKey, StatusTypes};
use kickbot::weapon::{
    detect, BannedItems, Detection, IconReading, Slot1Scores, Slot2Scores, Vehicle, Weapon,
    WeaponClasses,
};

const T: Thresholds = Thresholds { player_name: 800_000, weapon_name: 700_000, weapon_icon: 600_000 };
const HIT: u32 = 900_000;
const MISS: u32 = 100_000;

fn items() -> BannedItems {
    BannedItems {
        weapon: Weapon { pretty_name: "SMG08/18".to_string(), names: vec!["Maschinenpistole".to_string()] },
        heavy_bomber: Vehicle {
            pretty_name: "heavy bomber".to_string(),
            primary_names: vec!["BOMB".to_string()],
            secondary_names: vec!["TURRET".to_string()],
        },
        lmg: Vehicle {
            pretty_name: "mortar truck".to_string(),
            primary_names: vec![],
            secondary_names: vec!["MORTAR".to_string()],
        },
    }
}

fn slot1(smg: u32, bomber: u32, lmg_label: u32) -> Slot1Scores {
    Slot1Scores { smg: vec![MISS, smg], heavy_bomber: vec![bomber], lmg_label }
}

fn slot2(bomber: u32, lmg: u32) -> Slot2Scores {
    Slot2Scores { heavy_bomber: vec![bomber], lmg: vec![lmg] }
}

fn low(category: WeaponClasses) -> IconReading {
    IconReading { probability: 300_000, category }
}

fn high(category: WeaponClasses) -> IconReading {
    IconReading { probability: 950_000, category }
}

fn banned(d: Detection) -> Option<(String, WeaponClasses)> {
    match d {
        Detection::Banned { label, category } => Some((label, category)),
        Detection::Clean => None,
        Detection::NeedSlot2 => panic!("slot 2 was asked for"),
    }
}

#[test]
fn low_confidence_smg_text_decides_without_slot2() {
    let d = detect(&T, &items(), low(WeaponClasses::AllowedPrimaryGuns), &slot1(HIT, HIT, HIT), None);
    assert_eq!(banned(d), Some(("SMG08/18".to_string(), WeaponClasses::SMG08)));
}

#[test]
fn heavy_bomber_or_when_confident_and_when_not() {
    // Slot 1 names the bomber, slot 2 does not.
    let s1 = slot1(MISS, HIT, MISS);
    let s2 = slot2(MISS, MISS);
    let confident = detect(&T, &items(), high(WeaponClasses::HeavyBomber), &s1, None);
    assert_eq!(banned(confident), Some(("heavy bomber".to_string(), WeaponClasses::HeavyBomber)));
    let unsure = detect(&T, &items(), low(WeaponClasses::HeavyBomber), &s1, None);
    assert!(matches!(unsure, Detection::NeedSlot2));
    let unsure = detect(&T, &items(), low(WeaponClasses::HeavyBomber), &s1, Some(&s2));
    assert_eq!(banned(unsure), None);
    // Both slots name it: text alone is enough.
    let both = detect(&T, &items(), low(WeaponClasses::HeavyBomber), &s1, Some(&slot2(HIT, MISS)));
    assert_eq!(banned(both), Some(("heavy bomber".to_string(), WeaponClasses::HeavyBomber)));
    // Confident, slot 2 only.
    let d = detect(&T, &items(), high(WeaponClasses::HeavyBomber), &slot1(MISS, MISS, MISS), Some(&slot2(HIT, MISS)));
    assert_eq!(banned(d), Some(("heavy bomber".to_string(), WeaponClasses::HeavyBomber)));
}

#[test]
fn low_confidence_lmg_needs_label_then_slot2() {
    let s1 = slot1(MISS, MISS, HIT);
    assert!(matches!(detect(&T, &items(), low(WeaponClasses::LMG), &s1, None), Detection::NeedSlot2));
    let d = detect(&T, &items(), low(WeaponClasses::LMG), &s1, Some(&slot2(MISS, HIT)));
    assert_eq!(banned(d), Some(("mortar truck".to_string(), WeaponClasses::LMG)));
    // Without the "LMG" label slot 2 is never needed.
    let d = detect(&T, &items(), low(WeaponClasses::LMG), &slot1(MISS, MISS, MISS), None);
    assert_eq!(banned(d), None);
}

#[test]
fn confident_category_picks_its_rule() {
    let d = detect(&T, &items(), high(WeaponClasses::LMG), &slot1(HIT, HIT, HIT), Some(&slot2(MISS, HIT)));
    assert_eq!(banned(d), Some(("mortar truck".to_string(), WeaponClasses::LMG)));
    let d = detect(&T, &items(), high(WeaponClasses::SMG08), &slot1(HIT, MISS, MISS), None);
    assert_eq!(banned(d), Some(("SMG08/18".to_string(), WeaponClasses::SMG08)));
    let d = detect(&T, &items(), high(WeaponClasses::SMG08), &slot1(MISS, HIT, HIT), None);
    assert_eq!(banned(d), None);
    let d = detect(&T, &items(), high(WeaponClasses::AllowedPrimaryGuns), &slot1(HIT, HIT, HIT), None);
    assert_eq!(banned(d), None);
    let d = detect(&T, &items(), high(WeaponClasses::HMG), &slot1(HIT, HIT, HIT), None);
    assert_eq!(banned(d), None);
}

#[test]
fn threshold_is_inclusive() {
    assert!(find_similar(&vec![1, 700_000], 700_000));
    assert!(!find_similar(&vec![699_999], 700_000));
    assert!(!find_similar(&vec![], 0));
    let at = IconReading { probability: 600_000, category: WeaponClasses::SMG08 };
    let d = detect(&T, &items(), at, &slot1(MISS, HIT, HIT), None);
    assert_eq!(banned(d), None);
}

#[test]
fn pool_hands_out_round_robin_and_replaces_busy_slots() {
    let mut pool = Executors::new(vec![10, 20, 30]);
    let a = pool.acquire();
    assert_eq!((a.slot, a.worker), (0, Some(10)));
    let b = pool.acquire();
    assert_eq!((b.slot, b.worker), (1, Some(20)));
    pool.release(b.slot, 21);
    let c = pool.acquire();
    assert_eq!((c.slot, c.worker), (2, Some(30)));
    // Slot 0 is still checked out: no worker, the caller makes a new one.
    let d = pool.acquire();
    assert_eq!((d.slot, d.worker), (0, None));
    pool.release(d.slot, 11);
    let e = pool.acquire();
    assert_eq!((e.slot, e.worker), (1, Some(21)));
    assert_eq!(pool.idx, 2);
    assert_eq!(pool.ocr, vec![Some(11), None, None]);
}

#[test]
fn status_transitions() {
    assert_eq!(status_after_refresh(StatusTypes::Online, 3, 10), StatusTypes::Disabled);
    assert_eq!(status_after_refresh(StatusTypes::Disabled, 10, 10), StatusTypes::WaitingForBF1);
    assert_eq!(status_after_refresh(StatusTypes::Online, 12, 10), StatusTypes::Online);
    // A crashed bot stays crashed until the game is restarted.
    assert_eq!(status_after_refresh(StatusTypes::Crashed, 0, 1), StatusTypes::Crashed);
    assert_eq!(status_after_refresh(StatusTypes::Crashed, 20, 1), StatusTypes::Crashed);
    assert_eq!(status_after_window_lost(StatusTypes::Crashed), (StatusTypes::WaitingForBF1, true));
    assert_eq!(status_after_window_lost(StatusTypes::Online), (StatusTypes::WaitingForBF1, false));
    assert_eq!(status_after_window_lost(StatusTypes::Disabled), (StatusTypes::Disabled, false));
    assert_eq!(cycle_key(StatusTypes::WaitingForNewMap, 'q'), CycleKey::Refresh);
    assert_eq!(cycle_key(StatusTypes::Online, 'q'), CycleKey::Rotate('q'));
    assert!(StatusTypes::WaitingForBF1.runs_cycles());
    assert!(!StatusTypes::Crashed.runs_cycles());
    assert_eq!(StatusTypes::Disabled.label(), "Disabled (Player Count Too Low)");
}

#[test]
fn error_messages() {
    let e = cant_find("bf1_path");
    assert_eq!(e.message(), "[JSON Error] Couldn't find field bf1_path");
    assert_eq!(KickbotError::IOError("disk".to_string()).message(), "[IO Error] disk");
}

#[test]
fn clamp_and_hue_window() {
    assert_eq!(clamp(-5, 0, 180), 0);
    assert_eq!(clamp(200, 0, 180), 180);
    assert_eq!(clamp(90, 0, 180), 90);
    assert_eq!(hue_window(30, 80), (0, 110));
    assert_eq!(hue_window(170, 80), (90, 180));
}
