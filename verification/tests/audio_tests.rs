use chordcue::audio::AudioPlayer;
use chordcue::audio::CueTable;
use chordcue::Cmd;

fn table() -> CueTable {
    CueTable::new(vec![1u8, 1, 1], vec![2u8, 2], vec![3u8])
}

#[test]
fn cue_table_is_total_and_distinct() {
    let t = table();
    assert_eq!(t.cue_for(Cmd::ShowPlayers), &vec![1u8, 1, 1]);
    assert_eq!(t.cue_for(Cmd::MeToPlayer), &vec![2u8, 2]);
    assert_eq!(t.cue_for(Cmd::PlayerToMe), &vec![3u8]);
}

#[test]
fn play_hands_out_the_mapped_payload() {
    let mut p = AudioPlayer::new(table());
    let (payload, _) = p.play(Cmd::MeToPlayer);
    assert_eq!(payload, &vec![2u8, 2]);
}

#[test]
fn sequential_plays_never_share_a_position() {
    let mut p = AudioPlayer::new(table());
    let first = p.play(Cmd::ShowPlayers).1;
    let second = p.play(Cmd::ShowPlayers).1;
    assert_eq!(first, 0);
    assert_eq!(second, 1);
    assert!(first < second);
}

#[test]
fn positions_follow_submission_order() {
    let mut p = AudioPlayer::new(table());
    let a = p.play(Cmd::ShowPlayers).1;
    let b = p.play(Cmd::MeToPlayer).1;
    let c = p.play(Cmd::PlayerToMe).1;
    assert_eq!((a, b, c), (0, 1, 2));
}
