//! The command grammar and the chord classifier.
//!
//! A chord is the ordered list of currently pressed keys, in the order the
//! input layer reports them. It matches only when exactly two keys are down,
//! the second one is the backslash modifier, and the first one is one of the
//! three recognized letters. The order is deliberately not canonicalized:
//! pressing the modifier first is not a match.

use vstd::prelude::*;

verus! {

/// A recognized user intent. A closed set: no other commands exist.
#[derive(Debug, Clone, Copy, PartialEq, Eq, Structural)]
pub enum Cmd {
    ShowPlayers,
    MeToPlayer,
    PlayerToMe,
}

/// A pressed key, as far as the classifier cares: one of the three command
/// letters, the backslash modifier, or any other key (all of which the
/// grammar treats alike).
#[derive(Debug, Clone, Copy, PartialEq, Eq, Structural)]
pub enum Key {
    S,
    P,
    M,
    BackSlash,
    Other,
}

/// What the classifier returns for a given snapshot of pressed keys.
pub open spec fn classify(keys: Seq<Key>) -> Option<Cmd> {
    if keys.len() != 2 {
        None
    } else if keys[1] != Key::BackSlash {
        None
    } else {
        match keys[0] {
            Key::S => Some(Cmd::ShowPlayers),
            Key::P => Some(Cmd::MeToPlayer),
            Key::M => Some(Cmd::PlayerToMe),
            _ => None,
        }
    }
}

/// Classify a snapshot of pressed keys against the fixed chord grammar.
pub fn match_cmd(keys: &Vec<Key>) -> (r: Option<Cmd>)
    ensures
        r == classify(keys@),
{
    if keys.len() != 2 {
        return None;
    }
    if keys[1] == Key::BackSlash {
        match keys[0] {
            Key::S => Some(Cmd::ShowPlayers),
            Key::P => Some(Cmd::MeToPlayer),
            Key::M => Some(Cmd::PlayerToMe),
            _ => None,
        }
    } else {
        None
    }
}

/// A snapshot with any number of pressed keys other than two never matches.
pub proof fn lemma_classify_wrong_size(keys: Seq<Key>)
    requires
        keys.len() != 2,
    ensures
        classify(keys) is None,
{
}

/// In a two-key snapshot whose second key is the backslash modifier, the
/// three recognized letters map to their commands and every other first key
/// yields no match.
pub proof fn lemma_classify_two_keys(keys: Seq<Key>)
    requires
        keys.len() == 2,
        keys[1] == Key::BackSlash,
    ensures
        keys[0] == Key::S ==> classify(keys) == Some(Cmd::ShowPlayers),
        keys[0] == Key::P ==> classify(keys) == Some(Cmd::MeToPlayer),
        keys[0] == Key::M ==> classify(keys) == Some(Cmd::PlayerToMe),
        keys[0] == Key::BackSlash || keys[0] == Key::Other ==> classify(keys) is None,
{
}

/// A two-key snapshot whose second key is not the backslash modifier never
/// matches, whatever the first key is.
pub proof fn lemma_classify_wrong_modifier(keys: Seq<Key>)
    requires
        keys.len() == 2,
        keys[1] != Key::BackSlash,
    ensures
        classify(keys) is None,
{
}

/// Classification is a pure function of the key snapshot: classifying equal
/// snapshots, in particular the same snapshot twice, gives equal results.
pub proof fn lemma_classify_pure(keys1: Seq<Key>, keys2: Seq<Key>)
    requires
        keys1 == keys2,
    ensures
        classify(keys1) == classify(keys2),
{
}

} // verus!
