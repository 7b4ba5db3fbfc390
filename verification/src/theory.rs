//! Scale and chord construction, resolved through the `rust-music-theory`
//! crate.
//!
//! The two wrappers here are the only places where that crate is consulted.
//! Their contracts restate what its source does: a diatonic scale is the
//! tonic followed by the cumulative mode intervals, and a chord is its root
//! at octave 4 followed by the cumulative chord-quality intervals.

use rust_music_theory::chord::{Chord, Number, Quality};
use rust_music_theory::note::{Notes, PitchClass};
use rust_music_theory::scale::{Direction, Mode, Scale, ScaleType};
use vstd::prelude::*;

use crate::pitch::Note;

verus! {

/// The diatonic modes the melody generator draws from.
#[derive(Clone, Copy, Debug, PartialEq, Eq, Structural)]
pub enum ScaleMode {
    Ionian,
    Dorian,
    Mixolydian,
}

/// Chord quality, restricted to the qualities the progressions use.
#[derive(Clone, Copy, Debug, PartialEq, Eq, Structural)]
pub enum ChordQuality {
    Major,
    Minor,
    Dominant,
}

/// Chord cardinality: a triad or a seventh chord.
#[derive(Clone, Copy, Debug, PartialEq, Eq, Structural)]
pub enum ChordNumber {
    Triad,
    Seventh,
}

/// Semitone offsets of the eight ascending scale degrees (root through
/// octave) from the tonic, per mode.
pub open spec fn scale_offsets(mode: ScaleMode) -> Seq<int> {
    match mode {
        ScaleMode::Ionian => seq![0, 2, 4, 5, 7, 9, 11, 12],
        ScaleMode::Dorian => seq![0, 2, 3, 5, 7, 9, 10, 12],
        ScaleMode::Mixolydian => seq![0, 2, 4, 5, 7, 9, 10, 12],
    }
}

/// Semitone offsets of the chord tones from the chord root.  A dominant
/// triad is not a combination `rust-music-theory` defines; its `Chord::new`
/// falls back to the major-triad intervals, and the table says so.
pub open spec fn chord_offsets(quality: ChordQuality, number: ChordNumber) -> Seq<int> {
    match (quality, number) {
        (ChordQuality::Major, ChordNumber::Triad) => seq![0, 4, 7],
        (ChordQuality::Minor, ChordNumber::Triad) => seq![0, 3, 7],
        (ChordQuality::Dominant, ChordNumber::Triad) => seq![0, 4, 7],
        (ChordQuality::Major, ChordNumber::Seventh) => seq![0, 4, 7, 11],
        (ChordQuality::Minor, ChordNumber::Seventh) => seq![0, 3, 7, 10],
        (ChordQuality::Dominant, ChordNumber::Seventh) => seq![0, 4, 7, 10],
    }
}

/// Relies on `rust_music_theory::scale::Scale::new` (diatonic intervals
/// 2-2-1-2-2-2-1, rotated by the mode) and `Notes::notes`, which walks those
/// intervals up from the tonic: degree `i` carries the pitch class
/// `(tonic + scale_offsets(mode)[i]) % 12`.  `Scale::new` cannot fail for
/// the diatonic interval table, so the unwrap never panics.
#[verifier::external_body]
pub(crate) fn scale_pitch_classes(tonic: u8, mode: ScaleMode) -> (r: Vec<u8>)
    requires
        tonic < 12,
    ensures
        r@.len() == 8,
        forall|i: int| 0 <= i < 8 ==> r@[i] == (tonic + scale_offsets(mode)[i]) % 12,
{
    let m = match mode {
        ScaleMode::Ionian => Mode::Ionian,
        ScaleMode::Dorian => Mode::Dorian,
        ScaleMode::Mixolydian => Mode::Mixolydian,
    };
    let scale = Scale::new(ScaleType::Diatonic, PitchClass::from_u8(tonic), 4, Some(m), Direction::Ascending).unwrap();
    scale.notes().iter().map(|n| n.pitch_class.into_u8()).collect()
}

/// Relies on `rust_music_theory::chord::Chord::new` (interval table per
/// quality and cardinality, root placed at octave 4) and `Notes::notes`,
/// which walks the intervals up from the root and carries octaves across:
/// tone `i` sits `chord_offsets(quality, number)[i]` semitones above the
/// root's absolute position `48 + root`.
#[verifier::external_body]
pub(crate) fn chord_tone_notes(root: u8, quality: ChordQuality, number: ChordNumber) -> (r: Vec<Note>)
    requires
        root < 12,
    ensures
        r@.len() == chord_offsets(quality, number).len(),
        forall|i: int|
            0 <= i < r@.len() ==> #[trigger] r@[i].wf() && r@[i].abs_semitone() == 48 + root
                + chord_offsets(quality, number)[i],
{
    let q = match quality {
        ChordQuality::Major => Quality::Major,
        ChordQuality::Minor => Quality::Minor,
        ChordQuality::Dominant => Quality::Dominant,
    };
    let n = if matches!(number, ChordNumber::Triad) { Number::Triad } else { Number::Seventh };
    let chord = Chord::new(PitchClass::from_u8(root), q, n);
    chord.notes().iter().map(|x| Note { pitch_class: x.pitch_class.into_u8(), octave: x.octave }).collect()
}

} // verus!
