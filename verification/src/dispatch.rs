//! The dispatch decision of one polling iteration: given the classified
//! chord and the extracted player identifier, decide whether to act, what
//! text to write to the clipboard, and which cue to play.
//!
//! `ShowPlayers` acts regardless of the identifier; the two teleport
//! commands act only when an identifier is present (not the sentinel 0),
//! and are silently ignored otherwise.

use vstd::prelude::*;
use vstd::string::StringExecFns;
use crate::chord::Cmd;
use crate::chord::Key;
use crate::chord::classify;
use crate::chord::match_cmd;
use crate::digits::dec_digits;
use crate::digits::decimal_string;
use crate::player_id::get_player_id;
use crate::player_id::is_player_id_text;
use crate::digits::digits_value;

verus! {

/// The clipboard text written for a recognized, acted-on command.
pub open spec fn command_text(cmd: Cmd, id: int) -> Seq<char> {
    match cmd {
        Cmd::ShowPlayers => "ShowPlayers"@,
        Cmd::MeToPlayer => "TeleportToPlayer "@ + dec_digits(id as nat),
        Cmd::PlayerToMe => "TeleportToMe "@ + dec_digits(id as nat),
    }
}

/// The decision of one iteration: `None` means no clipboard write and no
/// cue; `Some((t, c))` means overwrite the clipboard with `t` and play the
/// cue of `c`.
pub open spec fn dispatch_spec(cmd: Option<Cmd>, id: int) -> Option<(Seq<char>, Cmd)> {
    match cmd {
        Option::None => Option::None,
        Option::Some(c) => {
            if c == Cmd::ShowPlayers || id != 0 {
                Option::Some((command_text(c, id), c))
            } else {
                Option::None
            }
        },
    }
}

/// The view of an executable decision, for stating contracts.
pub open spec fn decision_view(r: Option<(String, Cmd)>) -> Option<(Seq<char>, Cmd)> {
    match r {
        Option::None => Option::None,
        Option::Some(p) => Option::Some((p.0@, p.1)),
    }
}

/// Decide what one iteration does, from the classified chord and the
/// extracted player identifier.
pub fn decide(cmd: Option<Cmd>, player_id: i32) -> (r: Option<(String, Cmd)>)
    requires
        0 <= player_id,
    ensures
        decision_view(r) == dispatch_spec(cmd, player_id as int),
{
    match cmd {
        Option::None => Option::None,
        Option::Some(Cmd::ShowPlayers) => {
            let text = String::from_str("ShowPlayers");
            Option::Some((text, Cmd::ShowPlayers))
        },
        Option::Some(Cmd::MeToPlayer) => {
            if player_id != 0 {
                let mut text = String::from_str("TeleportToPlayer ");
                let num = decimal_string(player_id as u32);
                text.append(num.as_str());
                Option::Some((text, Cmd::MeToPlayer))
            } else {
                Option::None
            }
        },
        Option::Some(Cmd::PlayerToMe) => {
            if player_id != 0 {
                let mut text = String::from_str("TeleportToMe ");
                let num = decimal_string(player_id as u32);
                text.append(num.as_str());
                Option::Some((text, Cmd::PlayerToMe))
            } else {
                Option::None
            }
        },
    }
}

/// One polling iteration's pure part, end to end: classify the pressed-key
/// snapshot, extract the identifier from the clipboard snapshot, and decide
/// what to do. The identifier is extracted unconditionally, as the loop does.
pub fn poll_decision(keys: &Vec<Key>, clipboard_text: String) -> (r: Option<(String, Cmd)>)
    ensures
        decision_view(r) == dispatch_spec(
            classify(keys@),
            if is_player_id_text(clipboard_text@) {
                digits_value(clipboard_text@)
            } else {
                0
            },
        ),
{
    let cmd = match_cmd(keys);
    let player_id = get_player_id(clipboard_text);
    decide(cmd, player_id)
}

} // verus!
