use vstd::prelude::*;

verus! {

/// The one value that describes what the bot is doing right now.
#[derive(Clone, Copy, Debug, PartialEq, Eq, Structural, PartialOrd, Ord)]
pub enum StatusTypes {
    Online,
    Crashed,
    Disabled,
    WaitingForNewMap,
    WaitingForBF1,
}

/// Relies on std::time::Instant as an opaque value only: the bot status
/// carries the moment it was started and nothing here reads it.
#[verifier::external_type_specification]
#[verifier::external_body]
pub struct ExInstant(std::time::Instant);

/// The bot's status together with the moment it was started and the last
/// player name that was read successfully.
pub struct BotStatus {
    pub status: StatusTypes,
    pub timer_start: std::time::Instant,
    pub map_start: String,
    pub last_valid_name: Option<String>,
}

/// The key that the control loop presses at the end of a cycle.
#[derive(Clone, Copy, Debug, PartialEq, Eq, Structural)]
pub enum CycleKey {
    /// Move the spectator camera to the next player in the given direction.
    Rotate(char),
    /// Refresh the spectator view while a new map is loading.
    Refresh,
}

impl StatusTypes {
    pub open spec fn spec_label(self) -> Seq<char> {
        match self {
            StatusTypes::Online => "Online"@,
            StatusTypes::Crashed => "Crashed"@,
            StatusTypes::Disabled => "Disabled (Player Count Too Low)"@,
            StatusTypes::WaitingForNewMap => "Waiting for new map"@,
            StatusTypes::WaitingForBF1 => "Waiting for BF1 window"@,
        }
    }

    /// The human-readable name of the status.
    pub fn label(&self) -> (r: &'static str)
        ensures
            r@ == self.spec_label(),
    {
        match self {
            StatusTypes::Online => "Online",
            StatusTypes::Crashed => "Crashed",
            StatusTypes::Disabled => "Disabled (Player Count Too Low)",
            StatusTypes::WaitingForNewMap => "Waiting for new map",
            StatusTypes::WaitingForBF1 => "Waiting for BF1 window",
        }
    }

    /// Whether a detection cycle may run in this status.
    pub open spec fn spec_runs_cycles(self) -> bool {
        self == StatusTypes::Online || self == StatusTypes::WaitingForNewMap
            || self == StatusTypes::WaitingForBF1
    }

    pub fn runs_cycles(&self) -> (r: bool)
        ensures
            r == self.spec_runs_cycles(),
    {
        match self {
            StatusTypes::Online | StatusTypes::WaitingForNewMap | StatusTypes::WaitingForBF1 => true,
            _ => false,
        }
    }
}

/// The status after a roster refresh that counted `player_count` players:
/// a crashed bot stays crashed until the restart routine recovers it; else
/// too few players disable the bot, and a disabled bot waits for the game
/// window again once enough players are back.
pub open spec fn spec_status_after_refresh(status: StatusTypes, player_count: nat, min_players: nat) -> StatusTypes {
    if status == StatusTypes::Crashed {
        StatusTypes::Crashed
    } else if player_count < min_players {
        StatusTypes::Disabled
    } else if status == StatusTypes::Disabled {
        StatusTypes::WaitingForBF1
    } else {
        status
    }
}

pub fn status_after_refresh(status: StatusTypes, player_count: u64, min_players: u64) -> (r: StatusTypes)
    ensures
        r == spec_status_after_refresh(status, player_count as nat, min_players as nat),
        status == StatusTypes::Crashed ==> r == StatusTypes::Crashed,
{
    if status == StatusTypes::Crashed {
        StatusTypes::Crashed
    } else if player_count < min_players {
        StatusTypes::Disabled
    } else if status == StatusTypes::Disabled {
        StatusTypes::WaitingForBF1
    } else {
        status
    }
}

/// What happens when the game window is not in front: a crashed bot must be
/// recovered (the game restarted) and then waits for the window; a bot that
/// was running waits for the window; a waiting or disabled bot stays so.
/// The second component tells whether a recovery is needed first.
pub open spec fn spec_status_after_window_lost(status: StatusTypes) -> (StatusTypes, bool) {
    if status == StatusTypes::Crashed {
        (StatusTypes::WaitingForBF1, true)
    } else if status == StatusTypes::WaitingForBF1 || status == StatusTypes::Disabled {
        (status, false)
    } else {
        (StatusTypes::WaitingForBF1, false)
    }
}

pub fn status_after_window_lost(status: StatusTypes) -> (r: (StatusTypes, bool))
    ensures
        r == spec_status_after_window_lost(status),
{
    match status {
        StatusTypes::Crashed => (StatusTypes::WaitingForBF1, true),
        StatusTypes::WaitingForBF1 | StatusTypes::Disabled => (status, false),
        _ => (StatusTypes::WaitingForBF1, false),
    }
}

/// The key for the end of a cycle: a refresh while waiting for a new map,
/// else a rotation in the current direction.
pub open spec fn spec_cycle_key(status: StatusTypes, rotate_key: char) -> CycleKey {
    if status == StatusTypes::WaitingForNewMap {
        CycleKey::Refresh
    } else {
        CycleKey::Rotate(rotate_key)
    }
}

pub fn cycle_key(status: StatusTypes, rotate_key: char) -> (r: CycleKey)
    ensures
        r == spec_cycle_key(status, rotate_key),
{
    if status == StatusTypes::WaitingForNewMap {
        CycleKey::Refresh
    } else {
        CycleKey::Rotate(rotate_key)
    }
}

} // verus!
