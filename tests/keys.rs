use miconau::keys::{get_album_index, get_source_index, handle_midi_key_press, is_white_key, KeyAction};
use miconau::launch::note_on_key;
use std::num::NonZeroU8;

#[test]
fn main_is_white_key_works() {
    assert!(is_white_key(48)); // C
    assert!(!is_white_key(49)); // C#
    assert!(is_white_key(50)); // D
    assert!(!is_white_key(51)); // D#
    assert!(is_white_key(52)); // E
    assert!(is_white_key(53)); // F
    assert!(!is_white_key(54)); // F#
    assert!(is_white_key(55)); // G
    assert!(!is_white_key(56)); // G#
    assert!(is_white_key(57)); // A
    assert!(!is_white_key(58)); // Bb
    assert!(is_white_key(59)); // B
    assert!(is_white_key(60)); // C
}

#[test]
fn get_album_index_works() {
    // low key with high offset octave, album index is always 0
    assert_eq!(get_album_index(21, NonZeroU8::new(10).unwrap().get()).unwrap(), 0); // A
    assert!(get_album_index(22, NonZeroU8::new(10).unwrap().get()).is_none()); // Bb
    assert_eq!(get_album_index(23, NonZeroU8::new(10).unwrap().get()).unwrap(), 0); // B
    assert_eq!(get_album_index(24, NonZeroU8::new(10).unwrap().get()).unwrap(), 0); // C
    assert!(get_album_index(25, NonZeroU8::new(10).unwrap().get()).is_none()); // C#
    assert_eq!(get_album_index(26, NonZeroU8::new(10).unwrap().get()).unwrap(), 0); // D
    assert!(get_album_index(27, NonZeroU8::new(10).unwrap().get()).is_none()); // D#
    assert_eq!(get_album_index(28, NonZeroU8::new(10).unwrap().get()).unwrap(), 0); // E

    // octave offset = 1
    assert_eq!(get_album_index(12, NonZeroU8::new(1).unwrap().get()).unwrap(), 0); // C
    assert!(get_album_index(13, NonZeroU8::new(1).unwrap().get()).is_none()); // C#
    assert_eq!(get_album_index(14, NonZeroU8::new(1).unwrap().get()).unwrap(), 1); // D
    assert!(get_album_index(15, NonZeroU8::new(1).unwrap().get()).is_none()); // D#
    assert_eq!(get_album_index(16, NonZeroU8::new(1).unwrap().get()).unwrap(), 2); // E

    // octave offset = 2
    assert_eq!(get_album_index(24, NonZeroU8::new(2).unwrap().get()).unwrap(), 0); // C
    assert!(get_album_index(25, NonZeroU8::new(2).unwrap().get()).is_none()); // C#
    assert_eq!(get_album_index(26, NonZeroU8::new(2).unwrap().get()).unwrap(), 1); // D
    assert!(get_album_index(27, NonZeroU8::new(2).unwrap().get()).is_none()); // D#
    assert_eq!(get_album_index(28, NonZeroU8::new(2).unwrap().get()).unwrap(), 2); // E

    assert_eq!(get_album_index(36, NonZeroU8::new(2).unwrap().get()).unwrap(), 7); // Higher C
}

#[test]
fn mod_is_white_key_works() {
    assert!(is_white_key(0)); // lowest possible C

    assert!(is_white_key(48)); // C
    assert!(!is_white_key(49)); // C#
    assert!(is_white_key(50)); // D
    assert!(!is_white_key(51)); // D#
    assert!(is_white_key(52)); // E
    assert!(is_white_key(53)); // F
    assert!(!is_white_key(54)); // F#
    assert!(is_white_key(55)); // G
    assert!(!is_white_key(56)); // G#
    assert!(is_white_key(57)); // A
    assert!(!is_white_key(58)); // Bb
    assert!(is_white_key(59)); // B
    assert!(is_white_key(60)); // C
}

#[test]
fn get_source_index_works() {
    // low key with high offset octave, album index is always 0
    assert!(get_source_index(21, 10).is_none()); // A
    assert!(get_source_index(22, 10).is_none()); // Bb
    assert!(get_source_index(23, 10).is_none()); // B
    assert!(get_source_index(24, 10).is_none()); // C
    assert!(get_source_index(25, 10).is_none()); // C#
    assert!(get_source_index(26, 10).is_none()); // D
    assert!(get_source_index(27, 10).is_none()); // D#
    assert!(get_source_index(28, 10).is_none()); // E

    // octave offset = 1
    assert_eq!(get_source_index(12, 1).unwrap(), 0); // C
    assert!(get_source_index(13, 1).is_none()); // C#
    assert_eq!(get_source_index(14, 1).unwrap(), 1); // D
    assert!(get_source_index(15, 1).is_none()); // D#
    assert_eq!(get_source_index(16, 1).unwrap(), 2); // E

    // octave offset = 2
    assert_eq!(get_source_index(24, 2).unwrap(), 0); // C
    assert!(get_source_index(25, 2).is_none()); // C#
    assert_eq!(get_source_index(26, 2).unwrap(), 1); // D
    assert!(get_source_index(27, 2).is_none()); // D#
    assert_eq!(get_source_index(28, 2).unwrap(), 2); // E

    assert_eq!(get_source_index(36, 2).unwrap(), 7); // Higher C
}

#[test]
fn white_keys_follow_the_octave_pattern_for_every_note() {
    for note in 0u8..=127 {
        let expected = matches!(note % 12, 0 | 2 | 4 | 5 | 7 | 9 | 11);
        assert_eq!(is_white_key(note), expected, "note {}", note);
    }
}

#[test]
fn source_index_never_underflows() {
    assert_eq!(get_source_index(12, 1), Some(0));
    assert_eq!(get_source_index(13, 1), None);
    assert_eq!(get_source_index(14, 1), Some(1));
    assert_eq!(get_source_index(36, 2), Some(7));
    assert_eq!(get_source_index(127, 255), None);
    assert_eq!(get_source_index(127, 19), None);
    // 127 is G of octave 10: 10 * 7 + 4
    assert_eq!(get_source_index(127, 0), Some(74));
    assert_eq!(get_source_index(251, 0), Some(146));
    assert_eq!(get_source_index(255, 0), None);
    assert_eq!(get_album_index(0, 255), Some(0));
}

#[test]
fn key_presses_map_to_actions() {
    assert_eq!(handle_midi_key_press(36, 2), KeyAction::SelectSource(7));
    assert_eq!(handle_midi_key_press(24, 3), KeyAction::Reject);
    assert_eq!(handle_midi_key_press(49, 2), KeyAction::Stop);
    assert_eq!(handle_midi_key_press(51, 2), KeyAction::Stop);
    assert_eq!(handle_midi_key_press(54, 2), KeyAction::PreviousTrack);
    assert_eq!(handle_midi_key_press(56, 2), KeyAction::PlayPause);
    assert_eq!(handle_midi_key_press(58, 2), KeyAction::NextTrack);
    // transport keys repeat in every octave
    assert_eq!(handle_midi_key_press(8, 5), KeyAction::PlayPause);
    assert_eq!(handle_midi_key_press(118, 0), KeyAction::NextTrack);
}

#[test]
fn only_note_on_with_velocity_is_a_key_press() {
    assert_eq!(note_on_key(&[144, 60, 100]), Some(60));
    assert_eq!(note_on_key(&[144, 60, 0]), None);
    assert_eq!(note_on_key(&[128, 60, 100]), None);
    assert_eq!(note_on_key(&[144, 60]), None);
    assert_eq!(note_on_key(&[]), None);
}
