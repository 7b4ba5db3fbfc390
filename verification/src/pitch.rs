//! Pitch-class and note arithmetic: the 0-11 pitch-class circle, octave
//! placement, and the MIDI-style absolute note numbering (C4 = 60) used by
//! every generator in the crate.

use vstd::prelude::*;

verus! {

/// A note: a pitch class (0 = C .. 11 = B) together with an octave in
/// standard notation (C4 is middle C).
#[derive(Clone, Copy, Debug, PartialEq, Eq, Structural)]
pub struct Note {
    pub pitch_class: u8,
    pub octave: u8,
}

impl Note {
    /// A note is well formed when its pitch class lies on the 12-tone circle.
    pub open spec fn wf(self) -> bool {
        self.pitch_class < 12
    }

    /// Absolute semitone index of the note: twelve per octave plus the
    /// pitch class.
    pub open spec fn abs_semitone(self) -> int {
        self.octave * 12 + self.pitch_class
    }

    pub fn new(pitch_class: u8, octave: u8) -> (r: Note)
        requires
            pitch_class < 12,
        ensures
            r == (Note { pitch_class, octave }),
            r.wf(),
    {
        Note { pitch_class, octave }
    }
}

/// Spec twin of `note_to_midi`: octaves are numbered so that the MIDI value
/// is one octave above the absolute semitone index (C4 = 60, A4 = 69).
pub open spec fn spec_note_to_midi(note: Note) -> int {
    (note.octave + 1) * 12 + note.pitch_class
}

/// Convert a note to its MIDI number, `(octave + 1) * 12 + pitch_class`,
/// so that C4 (middle C) is 60 and A4 is 69.
pub fn note_to_midi(note: &Note) -> (r: i32)
    ensures
        r == spec_note_to_midi(*note),
{
    (note.octave as i32 + 1) * 12 + note.pitch_class as i32
}

/// Reduce any semitone count to its pitch class on the 0-11 circle.
pub fn get_pitch(root: u8) -> (r: u8)
    ensures
        r == root % 12,
        r < 12,
{
    root % 12
}

} // verus!
