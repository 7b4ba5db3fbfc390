use bitbeats::melody::{generate_melody_samples, RhythmPattern};
use bitbeats::pitch::{get_pitch, note_to_midi, Note};
use bitbeats::progression::generate_chord_samples;
use bitbeats::theory::{ChordNumber, ChordQuality, ScaleMode};
use rust_music_theory::chord::{Chord, Number, Quality};
use rust_music_theory::note::{Notes, PitchClass};

#[test]
fn midi_of_middle_c_is_60() {
    let c4 = Note::new(0, 4);
    assert_eq!(note_to_midi(&c4), 60);
}

#[test]
fn midi_of_a4_is_69() {
    let a4 = Note::new(9, 4);
    assert_eq!(note_to_midi(&a4), 69);
}

#[test]
fn midi_of_lowest_note() {
    let c_minus1 = Note::new(0, 0);
    assert_eq!(note_to_midi(&c_minus1), 12);
}

#[test]
fn get_pitch_wraps_around_the_circle() {
    assert_eq!(get_pitch(0), 0);
    assert_eq!(get_pitch(11), 11);
    assert_eq!(get_pitch(12), 0);
    assert_eq!(get_pitch(14), 2);
    assert_eq!(get_pitch(255), 3);
}

fn melody_pitch_classes(tonic: u8, mode: ScaleMode, seed: u64) -> Vec<u8> {
    let melody = generate_melody_samples(tonic, mode, 3, RhythmPattern::Complex, 60, 120, seed);
    assert!(!melody.is_empty());
    melody.iter().map(|t| t.note.pitch_class).collect()
}

#[test]
fn c_ionian_melodies_stay_in_c_major() {
    let scale = [0u8, 2, 4, 5, 7, 9, 11];
    for seed in 0..8 {
        for pc in melody_pitch_classes(0, ScaleMode::Ionian, seed) {
            assert!(scale.contains(&pc), "{pc} is not in C major");
        }
    }
}

#[test]
fn d_dorian_melodies_stay_on_the_white_keys() {
    let scale = [2u8, 4, 5, 7, 9, 11, 0];
    for seed in 0..8 {
        for pc in melody_pitch_classes(2, ScaleMode::Dorian, seed) {
            assert!(scale.contains(&pc), "{pc} is not in D dorian");
        }
    }
}

#[test]
fn g_mixolydian_melodies_stay_on_the_white_keys() {
    let scale = [7u8, 9, 11, 0, 2, 4, 5];
    for seed in 0..8 {
        for pc in melody_pitch_classes(7, ScaleMode::Mixolydian, seed) {
            assert!(scale.contains(&pc), "{pc} is not in G mixolydian");
        }
    }
}

#[test]
fn c_major_triad_tones() {
    let chord = generate_chord_samples(0, ChordQuality::Major, ChordNumber::Triad, 10);
    let midis: Vec<i32> = chord.tones.iter().map(note_to_midi).collect();
    assert_eq!(midis, vec![60, 64, 67]);
}

#[test]
fn a_minor_triad_tones() {
    let chord = generate_chord_samples(9, ChordQuality::Minor, ChordNumber::Triad, 10);
    let midis: Vec<i32> = chord.tones.iter().map(note_to_midi).collect();
    assert_eq!(midis, vec![69, 72, 76]);
}

#[test]
fn g_dominant_seventh_tones() {
    let chord = generate_chord_samples(7, ChordQuality::Dominant, ChordNumber::Seventh, 10);
    let midis: Vec<i32> = chord.tones.iter().map(note_to_midi).collect();
    assert_eq!(midis, vec![67, 71, 74, 77]);
}

#[test]
fn major_seventh_tones() {
    let chord = generate_chord_samples(0, ChordQuality::Major, ChordNumber::Seventh, 10);
    let midis: Vec<i32> = chord.tones.iter().map(note_to_midi).collect();
    assert_eq!(midis, vec![60, 64, 67, 71]);
}

#[test]
fn chord_tones_agree_with_the_music_theory_crate() {
    // The chord-lookup contract restates what the crate computes; run both
    // on the same chord and compare.
    let ours = generate_chord_samples(2, ChordQuality::Minor, ChordNumber::Seventh, 10);
    let theirs = Chord::new(PitchClass::from_u8(2), Quality::Minor, Number::Seventh);
    let their_notes = theirs.notes();
    assert_eq!(ours.tones.len(), their_notes.len());
    for (a, b) in ours.tones.iter().zip(their_notes.iter()) {
        assert_eq!(a.pitch_class, b.pitch_class.into_u8());
        assert_eq!(a.octave, b.octave);
    }
}
