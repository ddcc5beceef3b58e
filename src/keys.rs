//! Mapping of keyboard notes to source indexes and transport actions.
use vstd::prelude::*;

verus! {

/// Number of selector (white) keys in one octave.
pub const SELECTOR_KEYS_PER_OCTAVE: u16 = 7;

/// Whether a position within the octave (`note % 12`) is a selector key.
pub open spec fn is_selector_class(c: int) -> bool {
    c == 0 || c == 2 || c == 4 || c == 5 || c == 7 || c == 9 || c == 11
}

/// Whether a note is a selector key, independent of the octave.
pub open spec fn is_selector_key(note: u8) -> bool {
    is_selector_class(note as int % 12)
}

/// Position of a selector class within the seven selector classes.
pub open spec fn selector_rank(c: int) -> int {
    if c == 0 {
        0
    } else if c == 2 {
        1
    } else if c == 4 {
        2
    } else if c == 5 {
        3
    } else if c == 7 {
        4
    } else if c == 9 {
        5
    } else {
        6
    }
}

/// Index of a selector key counted from the lowest note.
pub open spec fn absolute_index(note: u8) -> int {
    (note as int / 12) * 7 + selector_rank(note as int % 12)
}

/// Source index of a note once `start_octave` octaves are skipped; `None` for
/// transport keys and for selector keys below the start octave.
pub open spec fn source_index_of(note: u8, start_octave: u8) -> Option<u8> {
    if is_selector_key(note) && absolute_index(note) >= start_octave as int * 7 {
        Some((absolute_index(note) - start_octave as int * 7) as u8)
    } else {
        None
    }
}

/// Like `source_index_of`, but selector keys below the start octave map to 0.
pub open spec fn album_index_of(note: u8, start_octave: u8) -> Option<u8> {
    if !is_selector_key(note) {
        None
    } else if absolute_index(note) >= start_octave as int * 7 {
        Some((absolute_index(note) - start_octave as int * 7) as u8)
    } else {
        Some(0)
    }
}

/// Rank of `c` among the selector classes, if it is one.
fn selector_rank_of(c: u8) -> (r: Option<u8>)
    requires
        c < 12,
    ensures
        r.is_some() == is_selector_class(c as int),
        r matches Some(k) ==> k as int == selector_rank(c as int) && k < 7,
{
    match c {
        0 => Some(0),
        2 => Some(1),
        4 => Some(2),
        5 => Some(3),
        7 => Some(4),
        9 => Some(5),
        11 => Some(6),
        _ => None,
    }
}

/// Whether `key` is a selector (white) key.
pub fn is_white_key(key: u8) -> (r: bool)
    ensures
        r == is_selector_key(key),
{
    selector_rank_of(key % 12).is_some()
}

/// Absolute index of a selector key, as computed from octave and rank.
fn absolute_of(key: u8) -> (r: Option<u16>)
    ensures
        r.is_some() == is_selector_key(key),
        r matches Some(a) ==> a as int == absolute_index(key) && a <= 153,
{
    match selector_rank_of(key % 12) {
        Some(rank) => {
            let octave = (key / 12) as u16;
            Some(octave * SELECTOR_KEYS_PER_OCTAVE + rank as u16)
        },
        None => None,
    }
}

/// Source index selected by `key`, counting from the first selector key of
/// octave `start_octave`. Keys below that octave and transport keys give `None`.
pub fn get_source_index(key: u8, start_octave: u8) -> (r: Option<u8>)
    ensures
        r == source_index_of(key, start_octave),
{
    match absolute_of(key) {
        Some(absolute) => {
            let offset = start_octave as u16 * SELECTOR_KEYS_PER_OCTAVE;
            if absolute >= offset {
                Some((absolute - offset) as u8)
            } else {
                None
            }
        },
        None => None,
    }
}

/// Album index selected by `key`: selector keys below octave `start_octave`
/// all select the first album; transport keys give `None`.
pub fn get_album_index(key: u8, start_octave: u8) -> (r: Option<u8>)
    ensures
        r == album_index_of(key, start_octave),
{
    match absolute_of(key) {
        Some(absolute) => {
            let offset = start_octave as u16 * SELECTOR_KEYS_PER_OCTAVE;
            if absolute >= offset {
                Some((absolute - offset) as u8)
            } else {
                Some(0)
            }
        },
        None => None,
    }
}

/// An event for the main control loop.
#[derive(Clone, Copy, Debug, PartialEq, Eq, Structural)]
pub enum MainThreadEvent {
    /// A note-on with positive velocity for the given note.
    MIDIEvent(u8),
}

/// What a key press asks the controller to do.
#[derive(Clone, Copy, Debug, PartialEq, Eq, Structural)]
pub enum KeyAction {
    /// Play the source with this index (streams first, then playlists).
    SelectSource(u8),
    /// A selector key below the start octave: play the error cue and stop.
    Reject,
    Stop,
    PreviousTrack,
    PlayPause,
    NextTrack,
}

/// The action for `note`: selector keys select a source, the other keys are
/// transport keys whose meaning repeats in every octave.
pub open spec fn key_action_of(note: u8, start_octave: u8) -> KeyAction {
    let c = note as int % 12;
    if is_selector_key(note) {
        match source_index_of(note, start_octave) {
            Some(i) => KeyAction::SelectSource(i),
            None => KeyAction::Reject,
        }
    } else if c == 1 || c == 3 {
        KeyAction::Stop
    } else if c == 6 {
        KeyAction::PreviousTrack
    } else if c == 8 {
        KeyAction::PlayPause
    } else {
        KeyAction::NextTrack
    }
}

/// Decides what a key press of `received` does.
pub fn handle_midi_key_press(received: u8, start_octave: u8) -> (r: KeyAction)
    ensures
        r == key_action_of(received, start_octave),
{
    if is_white_key(received) {
        match get_source_index(received, start_octave) {
            Some(index) => KeyAction::SelectSource(index),
            None => KeyAction::Reject,
        }
    } else {
        let within_octave = received % 12;
        if within_octave == 1 || within_octave == 3 {
            KeyAction::Stop
        } else if within_octave == 6 {
            KeyAction::PreviousTrack
        } else if within_octave == 8 {
            KeyAction::PlayPause
        } else {
            KeyAction::NextTrack
        }
    }
}

} // verus!
