use vstd::prelude::*;
use vstd::string::*;

use crate::model::{Heartbeat, Player};

verus! {

/// Why a heartbeat payload was rejected.
#[derive(Debug, Clone, Copy, PartialEq, Eq, Structural)]
pub enum ValidationError {
    HostnameEmpty,
    HostnameTooLong,
    MapNameEmpty,
    MapNameInvalid,
    GameModeEmpty,
    GameModeInvalid,
    MaxPlayersTooHigh,
    PortTooLow,
    PlayerNameEmpty,
}

/// Longest accepted host name, in characters.
pub const MAX_HOSTNAME_LEN: usize = 64;

/// Longest accepted map name or game mode, in characters.
pub const MAX_LABEL_LEN: usize = 32;

/// Smallest player limit that is rejected.
pub const PLAYER_LIMIT: i32 = 20;

/// Largest port that is rejected.
pub const LAST_RESERVED_PORT: i32 = 1024;

/// A character allowed in a map name or game mode: `a`..`z` or `_`.
pub open spec fn is_label_char(c: char) -> bool {
    ('a' <= c && c <= 'z') || c == '_'
}

/// Every character of `s` is allowed in a map name or game mode.
pub open spec fn label_chars_ok(s: Seq<char>) -> bool {
    forall|i: int| 0 <= i < s.len() ==> is_label_char(#[trigger] s[i])
}

/// Some player of the list has an empty name.
pub open spec fn has_unnamed_player(players: Seq<Player>) -> bool {
    exists|i: int| 0 <= i < players.len() && (#[trigger] players[i]).name@.len() == 0
}

/// The outcome of validating a heartbeat: the first failed check, in order.
pub open spec fn validation_outcome(hb: Heartbeat) -> Result<(), ValidationError> {
    if hb.hostname@.len() == 0 {
        Err(ValidationError::HostnameEmpty)
    } else if hb.hostname@.len() > MAX_HOSTNAME_LEN {
        Err(ValidationError::HostnameTooLong)
    } else if hb.map_name@.len() == 0 {
        Err(ValidationError::MapNameEmpty)
    } else if hb.map_name@.len() > MAX_LABEL_LEN || !label_chars_ok(hb.map_name@) {
        Err(ValidationError::MapNameInvalid)
    } else if hb.game_mode@.len() == 0 {
        Err(ValidationError::GameModeEmpty)
    } else if hb.game_mode@.len() > MAX_LABEL_LEN || !label_chars_ok(hb.game_mode@) {
        Err(ValidationError::GameModeInvalid)
    } else if hb.max_players >= PLAYER_LIMIT {
        Err(ValidationError::MaxPlayersTooHigh)
    } else if hb.port <= LAST_RESERVED_PORT {
        Err(ValidationError::PortTooLow)
    } else if has_unnamed_player(hb.players@) {
        Err(ValidationError::PlayerNameEmpty)
    } else {
        Ok(())
    }
}

/// A heartbeat that passes every check.
pub open spec fn valid_heartbeat(hb: Heartbeat) -> bool {
    validation_outcome(hb) is Ok
}

fn label_ok(s: &str) -> (r: bool)
    ensures
        r == (s@.len() <= MAX_LABEL_LEN && label_chars_ok(s@)),
{
    let n = s.unicode_len();
    if n > MAX_LABEL_LEN {
        return false;
    }
    let mut i: usize = 0;
    while i < n
        invariant
            n == s@.len(),
            i <= n,
            forall|j: int| 0 <= j < i ==> is_label_char(#[trigger] s@[j]),
        decreases n - i,
    {
        let c = s.get_char(i);
        if !(('a' <= c && c <= 'z') || c == '_') {
            return false;
        }
        i += 1;
    }
    true
}

fn any_unnamed_player(players: &Vec<Player>) -> (r: bool)
    ensures
        r == has_unnamed_player(players@),
{
    let mut i: usize = 0;
    while i < players.len()
        invariant
            i <= players@.len(),
            forall|j: int| 0 <= j < i ==> (#[trigger] players@[j]).name@.len() != 0,
        decreases players@.len() - i,
    {
        if players[i].name.as_str().unicode_len() == 0 {
            return true;
        }
        i += 1;
    }
    false
}

/// The reason text of a validation failure.
pub open spec fn validation_text(e: ValidationError) -> Seq<char> {
    match e {
        ValidationError::HostnameEmpty => "Invalid hostname: Must be at least 1 char."@,
        ValidationError::HostnameTooLong => "Invalid hostname: Too long (max 64 chars)."@,
        ValidationError::MapNameEmpty => "Invalid map_name: Must be at least 1 char."@,
        ValidationError::MapNameInvalid => "Invalid map_name: must be <= 32 chars, only a-z and underscore."@,
        ValidationError::GameModeEmpty => "Invalid game_mode: Must be at least 1 char."@,
        ValidationError::GameModeInvalid => "Invalid game_mode: must be <= 32 chars, only a-z and underscore."@,
        ValidationError::MaxPlayersTooHigh => "Invalid max_players: must be less than 20."@,
        ValidationError::PortTooLow => "Invalid port: must be higher than 1024."@,
        ValidationError::PlayerNameEmpty => "Invalid player name: Must be at least 1 char."@,
    }
}

impl ValidationError {
    /// The human-readable reason of this failure.
    pub fn message(&self) -> (r: String)
        ensures
            r@ == validation_text(*self),
    {
        match self {
            ValidationError::HostnameEmpty => String::from_str("Invalid hostname: Must be at least 1 char."),
            ValidationError::HostnameTooLong => String::from_str("Invalid hostname: Too long (max 64 chars)."),
            ValidationError::MapNameEmpty => String::from_str("Invalid map_name: Must be at least 1 char."),
            ValidationError::MapNameInvalid => String::from_str(
                "Invalid map_name: must be <= 32 chars, only a-z and underscore.",
            ),
            ValidationError::GameModeEmpty => String::from_str("Invalid game_mode: Must be at least 1 char."),
            ValidationError::GameModeInvalid => String::from_str(
                "Invalid game_mode: must be <= 32 chars, only a-z and underscore.",
            ),
            ValidationError::MaxPlayersTooHigh => String::from_str("Invalid max_players: must be less than 20."),
            ValidationError::PortTooLow => String::from_str("Invalid port: must be higher than 1024."),
            ValidationError::PlayerNameEmpty => String::from_str("Invalid player name: Must be at least 1 char."),
        }
    }
}

/// Checks a decoded heartbeat: host name 1 to 64 characters; map name and game
/// mode 1 to 32 characters of `a`..`z` and `_`; fewer than 20 players; a port
/// above 1024; no player without a name. The first failed check is reported.
pub fn validate_heartbeat(hb: &Heartbeat) -> (r: Result<(), ValidationError>)
    ensures
        r == validation_outcome(*hb),
{
    let host_len = hb.hostname.as_str().unicode_len();
    if host_len == 0 {
        return Err(ValidationError::HostnameEmpty);
    }
    if host_len > MAX_HOSTNAME_LEN {
        return Err(ValidationError::HostnameTooLong);
    }
    if hb.map_name.as_str().unicode_len() == 0 {
        return Err(ValidationError::MapNameEmpty);
    }
    if !label_ok(hb.map_name.as_str()) {
        return Err(ValidationError::MapNameInvalid);
    }
    if hb.game_mode.as_str().unicode_len() == 0 {
        return Err(ValidationError::GameModeEmpty);
    }
    if !label_ok(hb.game_mode.as_str()) {
        return Err(ValidationError::GameModeInvalid);
    }
    if hb.max_players >= PLAYER_LIMIT {
        return Err(ValidationError::MaxPlayersTooHigh);
    }
    if hb.port <= LAST_RESERVED_PORT {
        return Err(ValidationError::PortTooLow);
    }
    if any_unnamed_player(&hb.players) {
        return Err(ValidationError::PlayerNameEmpty);
    }
    Ok(())
}

} // verus!
