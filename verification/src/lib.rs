//! Chord-and-clipboard macro core: recognizes a fixed two-key chord grammar,
//! extracts a nine-digit player identifier from clipboard text, decides what
//! one polling iteration writes to the clipboard and which audio cue it plays,
//! and models the serialized (strictly FIFO, non-overlapping) cue player.

pub mod audio;
pub mod chord;
pub mod digits;
pub mod dispatch;
pub mod player_id;

pub use chord::Cmd;
pub use chord::Key;
