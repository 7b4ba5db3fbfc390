//! Harmonic progressions: each style names a fixed chord-function sequence
//! (offsets from the progression root, with a quality and cardinality per
//! step), resolved into chord tones and a root note per step for the bass.

use vstd::prelude::*;

use crate::pitch::Note;
use crate::style::{lower_codes, spec_style_of, style_of, Style};
use crate::theory::{chord_offsets, chord_tone_notes, ChordNumber, ChordQuality};

verus! {

/// One step of a progression: a chord, resolved into its tones, held for a
/// fixed stretch of the sample grid.
#[derive(Clone, Debug, PartialEq)]
pub struct ChordSpec {
    /// Pitch class of the chord root (0-11).
    pub root: u8,
    pub quality: ChordQuality,
    pub number: ChordNumber,
    /// The chord tones, rooted at octave 4.
    pub tones: Vec<Note>,
    /// How many samples the chord is held.
    pub samples: u64,
}

impl ChordSpec {
    /// The tones spell out the chord: one tone per chord offset, each the
    /// chord root's absolute position plus its offset.
    pub open spec fn wf(self) -> bool {
        &&& self.root < 12
        &&& self.tones@.len() == chord_offsets(self.quality, self.number).len()
        &&& forall|i: int|
            0 <= i < self.tones@.len() ==> (#[trigger] self.tones@[i]).wf()
                && self.tones@[i].abs_semitone() == 48 + self.root + chord_offsets(
                self.quality,
                self.number,
            )[i]
    }
}

/// The chord-function table of a progression: scale-degree offset from the
/// root, quality, and cardinality of each step.
pub open spec fn prog_steps(style: Style) -> Seq<(int, ChordQuality, ChordNumber)> {
    match style {
        Style::Blues => seq![
            (0, ChordQuality::Major, ChordNumber::Triad),
            (5, ChordQuality::Major, ChordNumber::Triad),
            (7, ChordQuality::Major, ChordNumber::Triad),
            (5, ChordQuality::Major, ChordNumber::Triad),
        ],
        Style::Pop => seq![
            (0, ChordQuality::Major, ChordNumber::Triad),
            (7, ChordQuality::Major, ChordNumber::Triad),
            (9, ChordQuality::Minor, ChordNumber::Triad),
            (5, ChordQuality::Major, ChordNumber::Triad),
        ],
        Style::Jazz => seq![
            (2, ChordQuality::Minor, ChordNumber::Seventh),
            (7, ChordQuality::Dominant, ChordNumber::Seventh),
            (0, ChordQuality::Major, ChordNumber::Seventh),
        ],
        Style::Default => seq![
            (0, ChordQuality::Major, ChordNumber::Triad),
            (5, ChordQuality::Major, ChordNumber::Triad),
        ],
    }
}

/// The octave band chord roots are reported in for bass derivation: the
/// root note list carries `root + offset + 36`, one octave class apart from
/// the melody's octave.
pub const CHORD_ROOT_OCTAVE_OFFSET: u8 = 36;

/// Resolve one chord of a progression: look up its tones and hold it for
/// `samples` samples.
pub fn generate_chord_samples(
    root: u8,
    quality: ChordQuality,
    number: ChordNumber,
    samples: u64,
) -> (r: ChordSpec)
    requires
        root < 12,
    ensures
        r.wf(),
        r.root == root,
        r.quality == quality,
        r.number == number,
        r.samples == samples,
{
    let tones = chord_tone_notes(root, quality, number);
    ChordSpec { root, quality, number, tones, samples }
}

/// What `get_progression` promises of its result, step by step: one
/// well-formed chord per table entry, rooted at the progression root plus
/// the step offset, held for the requested stretch; and beside it the
/// chord-root note list in the bass octave band.
pub open spec fn progression_matches(
    chords: Seq<ChordSpec>,
    roots: Seq<u8>,
    style: Style,
    root: u8,
    samples_per_chord: u64,
) -> bool {
    let steps = prog_steps(style);
    &&& chords.len() == steps.len()
    &&& roots.len() == steps.len()
    &&& forall|i: int|
        0 <= i < steps.len() ==> {
            let c = #[trigger] chords[i];
            &&& c.wf()
            &&& c.root == (root + steps[i].0) % 12
            &&& c.quality == steps[i].1
            &&& c.number == steps[i].2
            &&& c.samples == samples_per_chord
        }
    &&& forall|i: int|
        0 <= i < steps.len() ==> #[trigger] roots[i] == root + steps[i].0
            + CHORD_ROOT_OCTAVE_OFFSET
}

/// Build the chord progression named by `prog_name` (matched
/// case-insensitively; an unrecognized name falls back to the default
/// two-chord table) on the given root, each chord held `samples_per_chord`
/// samples.  Returns the resolved chords and the chord-root note list used
/// by the bass line.
pub fn get_progression(prog_name: &str, root: u8, samples_per_chord: u64) -> (r: (
    Vec<ChordSpec>,
    Vec<u8>,
))
    requires
        root < 12,
    ensures
        progression_matches(r.0@, r.1@, spec_style_of(prog_name@), root, samples_per_chord),
{
    let style = style_of(prog_name);
    let mut chords: Vec<ChordSpec> = Vec::new();
    let mut roots: Vec<u8> = Vec::new();

    let steps: Vec<(u8, ChordQuality, ChordNumber)> = match style {
        Style::Blues => vec![
            (0u8, ChordQuality::Major, ChordNumber::Triad),
            (5u8, ChordQuality::Major, ChordNumber::Triad),
            (7u8, ChordQuality::Major, ChordNumber::Triad),
            (5u8, ChordQuality::Major, ChordNumber::Triad),
        ],
        Style::Pop => vec![
            (0u8, ChordQuality::Major, ChordNumber::Triad),
            (7u8, ChordQuality::Major, ChordNumber::Triad),
            (9u8, ChordQuality::Minor, ChordNumber::Triad),
            (5u8, ChordQuality::Major, ChordNumber::Triad),
        ],
        Style::Jazz => vec![
            (2u8, ChordQuality::Minor, ChordNumber::Seventh),
            (7u8, ChordQuality::Dominant, ChordNumber::Seventh),
            (0u8, ChordQuality::Major, ChordNumber::Seventh),
        ],
        Style::Default => vec![
            (0u8, ChordQuality::Major, ChordNumber::Triad),
            (5u8, ChordQuality::Major, ChordNumber::Triad),
        ],
    };
    proof {
        assert(steps@.len() == prog_steps(style).len());
        assert(forall|i: int|
            0 <= i < steps@.len() ==> (#[trigger] steps@[i]).0 == prog_steps(style)[i].0
                && steps@[i].1 == prog_steps(style)[i].1 && steps@[i].2 == prog_steps(style)[i].2);
    }

    let mut i: usize = 0;
    while i < steps.len()
        invariant
            root < 12,
            steps@.len() == prog_steps(style).len(),
            forall|k: int|
                0 <= k < steps@.len() ==> (#[trigger] steps@[k]).0 == prog_steps(style)[k].0
                    && steps@[k].1 == prog_steps(style)[k].1 && steps@[k].2 == prog_steps(
                    style,
                )[k].2,
            forall|k: int| 0 <= k < steps@.len() ==> (#[trigger] steps@[k]).0 <= 9,
            i <= steps@.len(),
            chords@.len() == i,
            roots@.len() == i,
            forall|k: int|
                0 <= k < i ==> {
                    let c = #[trigger] chords@[k];
                    &&& c.wf()
                    &&& c.root == (root + prog_steps(style)[k].0) % 12
                    &&& c.quality == prog_steps(style)[k].1
                    &&& c.number == prog_steps(style)[k].2
                    &&& c.samples == samples_per_chord
                },
            forall|k: int|
                0 <= k < i ==> #[trigger] roots@[k] == root + prog_steps(style)[k].0
                    + CHORD_ROOT_OCTAVE_OFFSET,
        decreases steps@.len() - i,
    {
        let (offset, quality, number) = steps[i];
        let chord_root = (root + offset) % 12;
        let chord = generate_chord_samples(chord_root, quality, number, samples_per_chord);
        chords.push(chord);
        roots.push(root + offset + CHORD_ROOT_OCTAVE_OFFSET);
        i = i + 1;
    }
    (chords, roots)
}

/// An unrecognized progression name falls back to the default table: the
/// same two-chord structure that the name "default" itself produces.
pub proof fn lemma_unknown_progression_falls_back(name: Seq<char>)
    requires
        spec_style_of(name) != Style::Blues,
        spec_style_of(name) != Style::Pop,
        spec_style_of(name) != Style::Jazz,
    ensures
        prog_steps(spec_style_of(name)) == prog_steps(spec_style_of("default"@)),
{
    reveal_strlit("default");
    reveal_strlit("blues");
    reveal_strlit("pop");
    reveal_strlit("jazz");
    assert(lower_codes("default"@).len() == 7) by {
        assert("default"@.len() == 7);
    }
    assert(lower_codes("blues"@).len() == 5);
    assert(lower_codes("pop"@).len() == 3);
    assert(lower_codes("jazz"@).len() == 4);
    assert(spec_style_of("default"@) == Style::Default);
}

} // verus!
