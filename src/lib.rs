//! Decision engine of a spectator bot: it tracks camera-cycling progress,
//! decides from classifier and text-match evidence whether a banned weapon
//! or vehicle is in use, and reconciles a detected violator with the live
//! team roster before a kick is requested.
//!
//! Everything that touches the screen, the network, the terminal or the
//! game process lives outside this crate and hands it plain values. Text
//! similarity arrives as integer scores (fractions of `SCALE`).

pub mod bookkeeping;
pub mod console;
pub mod cycle;
pub mod elapsed;
pub mod enhance;
pub mod error;
pub mod kick;
pub mod ledger;
pub mod pool;
pub mod roster;
pub mod similarity;
pub mod status;
pub mod weapon;

pub use console::Console;
pub use cycle::{GameState, PendingKick, RecordWeapon};
pub use enhance::{clamp, RGB};
pub use error::{cant_find, KickbotError};
pub use kick::{kick_player, KickOutcome, KickRequest};
pub use ledger::{
    add_to_player_kick_record, weapon_records_from_fields, HistoryField, KickHistory, PlayerKicks,
    WeaponKicks,
};
pub use pool::{Acquired, Executors};
pub use roster::{insert_player, tagged_player_name, RosterEntry, ServerDetails};
pub use similarity::{find_similar, is_similar, Thresholds, SCALE};
pub use status::{BotStatus, CycleKey, StatusTypes};
pub use weapon::{
    detect, BannedItems, Detection, Gadget, IconReading, Slot1Scores, Slot2Scores, Vehicle,
    Verdict, Weapon, WeaponClasses,
};
