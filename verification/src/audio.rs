//! The audio cue player, modeled as what it is: a strictly serial service.
//!
//! `CueTable` is the fixed, total mapping from each command to its cue
//! payload, built once at startup (all three cues must be supplied, so no
//! request can ever find its cue unmapped). `AudioPlayer` hands out, for
//! each request, the payload to play and the request's position in the
//! strictly first-in-first-out playback order; the caller performs the
//! actual playback of one payload to completion before the next request is
//! submitted, so positions order the cues in playback time.

use vstd::prelude::*;
use crate::chord::Cmd;

verus! {

/// The fixed mapping from each command to its cue payload. Total by
/// construction: one payload per command, no lookup can fail.
pub struct CueTable {
    show_players: Vec<u8>,
    me_to_player: Vec<u8>,
    player_to_me: Vec<u8>,
}

impl CueTable {
    /// The payload mapped to `cmd`.
    pub closed spec fn cue_spec(&self, cmd: Cmd) -> Seq<u8> {
        match cmd {
            Cmd::ShowPlayers => self.show_players@,
            Cmd::MeToPlayer => self.me_to_player@,
            Cmd::PlayerToMe => self.player_to_me@,
        }
    }

    /// Build the mapping from the three cue payloads, one per command.
    pub fn new(show_players: Vec<u8>, me_to_player: Vec<u8>, player_to_me: Vec<u8>) -> (t: CueTable)
        ensures
            t.cue_spec(Cmd::ShowPlayers) == show_players@,
            t.cue_spec(Cmd::MeToPlayer) == me_to_player@,
            t.cue_spec(Cmd::PlayerToMe) == player_to_me@,
    {
        CueTable { show_players, me_to_player, player_to_me }
    }

    /// Look up the cue payload for `cmd`. Never fails: the mapping is total.
    pub fn cue_for(&self, cmd: Cmd) -> (r: &Vec<u8>)
        ensures
            r@ == self.cue_spec(cmd),
    {
        match cmd {
            Cmd::ShowPlayers => &self.show_players,
            Cmd::MeToPlayer => &self.me_to_player,
            Cmd::PlayerToMe => &self.player_to_me,
        }
    }
}

/// The request counter of the player, with the ghost history it counts.
struct PlayCount {
    completed: u64,
    history: Ghost<Seq<Cmd>>,
}

impl PlayCount {
    /// The counter always agrees with the length of the history.
    #[verifier::type_invariant]
    closed spec fn wf(self) -> bool {
        self.history@.len() == self.completed
    }
}

/// The serialized cue player: owns the cue mapping and assigns each request
/// the next position in the first-in-first-out playback order. The history
/// of requested cues is kept in ghost state, counted by an exec counter.
pub struct AudioPlayer {
    cues: CueTable,
    count: PlayCount,
}

impl AudioPlayer {
    /// The cues requested so far, in submission (= playback) order.
    pub closed spec fn played(&self) -> Seq<Cmd> {
        self.count.history@
    }

    /// The player's cue mapping.
    pub closed spec fn cues(&self) -> CueTable {
        self.cues
    }

    /// Start the player over a fully loaded cue mapping; nothing has been
    /// played yet.
    pub fn new(cues: CueTable) -> (p: AudioPlayer)
        ensures
            p.played() == Seq::<Cmd>::empty(),
            p.cues() == cues,
    {
        AudioPlayer { cues, count: PlayCount { completed: 0, history: Ghost(Seq::empty()) } }
    }

    /// How many cues have been requested so far; with each one played to
    /// completion before the next request, how many have been played.
    pub fn completed_count(&self) -> (r: u64)
        ensures
            r as nat == self.played().len(),
    {
        proof {
            use_type_invariant(&self.count);
        }
        self.count.completed
    }

    /// Serve one `play` request: return the payload to be played to
    /// completion and the request's position in the playback order, and
    /// record the request. Positions are assigned strictly in submission
    /// order, so no two cues share one and later requests play strictly
    /// after earlier ones.
    pub fn play(&mut self, cmd: Cmd) -> (r: (&Vec<u8>, u64))
        requires
            old(self).played().len() < u64::MAX,
        ensures
            r.0@ == old(self).cues().cue_spec(cmd),
            r.1 as nat == old(self).played().len(),
            final(self).played() == old(self).played().push(cmd),
            final(self).cues() == old(self).cues(),
    {
        proof {
            use_type_invariant(&self.count);
        }
        let position = self.count.completed;
        let ghost extended: Seq<Cmd> = self.count.history@.push(cmd);
        self.count = PlayCount { completed: position + 1, history: Ghost(extended) };
        (self.cues.cue_for(cmd), position)
    }
}

/// Playback is serialized: when a cue `a` is requested from history `h` and
/// a cue `b` right after it, `a` takes position `h.len()` and `b` the
/// strictly later position `h.len() + 1`, and the history then holds them
/// in exactly that order. With each payload played to completion before the
/// next request, the two never overlap and `b`'s completion is observed
/// strictly after `a`'s.
pub proof fn lemma_play_serialized(h: Seq<Cmd>, a: Cmd, b: Cmd)
    ensures
        h.push(a).len() == h.len() + 1,
        h.len() < h.push(a).len(),
        h.push(a).push(b) == h + seq![a, b],
        h.push(a).push(b)[h.len() as int] == a,
        h.push(a).push(b)[h.len() as int + 1] == b,
{
    assert(h.push(a).push(b) =~= h + seq![a, b]);
}

} // verus!
