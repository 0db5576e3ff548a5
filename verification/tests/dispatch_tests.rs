use chordcue::dispatch::decide;
use chordcue::dispatch::poll_decision;
use chordcue::Cmd;
use chordcue::Key;

#[test]
fn show_players_regardless_of_clipboard() {
    let keys = vec![Key::S, Key::BackSlash];
    let r = poll_decision(&keys, "whatever".to_string());
    let (text, cue) = r.expect("chord must match");
    assert_eq!(text, "ShowPlayers");
    assert_eq!(cue, Cmd::ShowPlayers);
}

#[test]
fn me_to_player_with_valid_id() {
    let keys = vec![Key::P, Key::BackSlash];
    let r = poll_decision(&keys, "128991414".to_string());
    let (text, cue) = r.expect("chord must match and id is present");
    assert_eq!(text, "TeleportToPlayer 128991414");
    assert_eq!(cue, Cmd::MeToPlayer);
}

#[test]
fn player_to_me_without_id_is_ignored() {
    let keys = vec![Key::M, Key::BackSlash];
    let r = poll_decision(&keys, "abc".to_string());
    assert!(r.is_none());
}

#[test]
fn reversed_chord_does_nothing() {
    let keys = vec![Key::BackSlash, Key::S];
    let r = poll_decision(&keys, "128991414".to_string());
    assert!(r.is_none());
}

#[test]
fn player_to_me_with_valid_id() {
    let keys = vec![Key::M, Key::BackSlash];
    let r = poll_decision(&keys, "000012345".to_string());
    let (text, cue) = r.expect("chord must match and id is present");
    assert_eq!(text, "TeleportToMe 12345");
    assert_eq!(cue, Cmd::PlayerToMe);
}

#[test]
fn me_to_player_with_all_zero_id_is_ignored() {
    let keys = vec![Key::P, Key::BackSlash];
    let r = poll_decision(&keys, "000000000".to_string());
    assert!(r.is_none());
}

#[test]
fn no_chord_does_nothing() {
    let keys = vec![Key::S];
    let r = poll_decision(&keys, "128991414".to_string());
    assert!(r.is_none());
}

#[test]
fn decide_show_players_ignores_id() {
    let r = decide(Some(Cmd::ShowPlayers), 0);
    let (text, cue) = r.expect("show players needs no id");
    assert_eq!(text, "ShowPlayers");
    assert_eq!(cue, Cmd::ShowPlayers);
}

#[test]
fn decide_none_is_idle() {
    assert!(decide(None, 128991414).is_none());
}

#[test]
fn decide_teleport_without_id_is_idle() {
    assert!(decide(Some(Cmd::MeToPlayer), 0).is_none());
    assert!(decide(Some(Cmd::PlayerToMe), 0).is_none());
}
