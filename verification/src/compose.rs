//! The composition engine's front door: resolve the raw parameter strings
//! of an application state into song parameters, then generate the melody,
//! the chord progression and the bass line — all from the one resolved
//! seed — and bundle them as a score for the renderer.

use vstd::prelude::*;

use crate::bass::{bass_total_samples, get_bass_line, BassSegment};
use crate::id::{first_word, parse_u32, parse_u64, spec_first_word, spec_parse_u32, spec_parse_u64};
use crate::melody::{
    get_melody,
    melody_total_samples,
    melody_wf,
    samples_per_quarter,
    total_melody_samples,
    RhythmPattern,
    TimedNote,
    MELODY_OCTAVE,
};
use crate::theory::ScaleMode;
use crate::progression::{get_progression, progression_matches, ChordSpec};
use crate::rng::{random_u64, rng_below, rng_from_seed};
use crate::state::{spec_scale_names, AppState};
use crate::style::{lower_codes, spec_style_of, style_of, Style};

verus! {

/// The five resolved parameters that fully determine a song.
#[derive(Clone, Copy, Debug, PartialEq, Eq, Structural)]
pub struct SongParameters {
    /// Pitch class of the tonic, 0-11.
    pub scale_root: u8,
    pub style: Style,
    /// Beats per minute, positive.
    pub bpm: u32,
    /// Length in whole minutes.
    pub minutes: u32,
    /// The seed actually used; reported back so the song can be reproduced.
    pub seed: u64,
}

/// Exact string equality.
fn str_eq(a: &str, b: &str) -> (r: bool)
    ensures
        r <==> a@ == b@,
{
    let alen = a.unicode_len();
    let blen = b.unicode_len();
    if alen != blen {
        return false;
    }
    let mut i: usize = 0;
    while i < alen
        invariant
            alen == a@.len(),
            alen == b@.len(),
            i <= alen,
            forall|j: int| 0 <= j < i ==> a@[j] == b@[j],
        decreases alen - i,
    {
        if a.get_char(i) != b.get_char(i) {
            return false;
        }
        i = i + 1;
    }
    proof {
        assert(a@ =~= b@);
    }
    true
}

/// The tonic named by a scale string: the scale names in their picker order
/// name the pitch classes 0 through 11; anything else (case-sensitively)
/// defaults to C.
pub open spec fn spec_scale_root(s: Seq<char>) -> u8 {
    if s == "C"@ {
        0
    } else if s == "C#"@ {
        1
    } else if s == "D"@ {
        2
    } else if s == "D#"@ {
        3
    } else if s == "E"@ {
        4
    } else if s == "F"@ {
        5
    } else if s == "F#"@ {
        6
    } else if s == "G"@ {
        7
    } else if s == "G#"@ {
        8
    } else if s == "A"@ {
        9
    } else if s == "A#"@ {
        10
    } else if s == "B"@ {
        11
    } else {
        0
    }
}

/// Resolve a scale name to its tonic pitch class.
pub fn scale_name_to_root(scale: &str) -> (r: u8)
    ensures
        r == spec_scale_root(scale@),
        r < 12,
{
    if str_eq(scale, "C") {
        0
    } else if str_eq(scale, "C#") {
        1
    } else if str_eq(scale, "D") {
        2
    } else if str_eq(scale, "D#") {
        3
    } else if str_eq(scale, "E") {
        4
    } else if str_eq(scale, "F") {
        5
    } else if str_eq(scale, "F#") {
        6
    } else if str_eq(scale, "G") {
        7
    } else if str_eq(scale, "G#") {
        8
    } else if str_eq(scale, "A") {
        9
    } else if str_eq(scale, "A#") {
        10
    } else if str_eq(scale, "B") {
        11
    } else {
        0
    }
}

/// Resolve the raw parameter strings of a state.
///
/// The seed is taken from the seed field when it parses, otherwise drawn
/// fresh; the tempo is taken from the BPM field when it parses to a
/// positive number, otherwise drawn uniformly from 80 through 160 by the
/// seeded generator; the minutes come from the length field, defaulting to
/// five; scale and style resolve through their tables.
pub fn resolve_song_parameters(st: &AppState) -> (r: SongParameters)
    ensures
        r.scale_root == spec_scale_root(st.scale@),
        r.scale_root < 12,
        r.style == spec_style_of(st.style@),
        spec_parse_u64(st.seed@) is Some ==> r.seed == spec_parse_u64(st.seed@).unwrap(),
        match spec_parse_u32(st.bpm@) {
            Some(v) => if v > 0 {
                r.bpm == v
            } else {
                80 <= r.bpm <= 160
            },
            None => 80 <= r.bpm <= 160,
        },
        r.bpm >= 1,
        r.minutes == match spec_parse_u32(spec_first_word(st.length@)) {
            Some(m) => m,
            None => 5u32,
        },
{
    let scale_root = scale_name_to_root(st.scale.as_str());
    let style = style_of(st.style.as_str());
    let seed = match parse_u64(st.seed.as_str()) {
        Some(v) => v,
        None => random_u64(),
    };
    let mut rng = rng_from_seed(seed);
    let bpm = match parse_u32(st.bpm.as_str()) {
        Some(v) => {
            if v > 0 {
                v
            } else {
                80 + rng_below(&mut rng, 81) as u32
            }
        },
        None => 80 + rng_below(&mut rng, 81) as u32,
    };
    let minutes_str = first_word(st.length.as_str());
    let minutes = match parse_u32(minutes_str.as_str()) {
        Some(m) => m,
        None => 5,
    };
    SongParameters { scale_root, style, bpm, minutes, seed }
}

/// The style names the crate's generators recognize, as progression names.
fn style_name(style: Style) -> (r: &'static str)
    ensures
        spec_style_of(r@) == style,
{
    proof {
        reveal_strlit("blues");
        reveal_strlit("pop");
        reveal_strlit("jazz");
        reveal_strlit("default");
        assert(lower_codes("blues"@).len() == 5);
        assert(lower_codes("pop"@).len() == 3);
        assert(lower_codes("jazz"@).len() == 4);
        assert(lower_codes("default"@).len() == 7);
    }
    match style {
        Style::Blues => "blues",
        Style::Pop => "pop",
        Style::Jazz => "jazz",
        Style::Default => "default",
    }
}

/// A complete symbolic score: everything the renderer needs to synthesize
/// and mix the song, and everything the player needs to track it.
#[derive(Clone, Debug, PartialEq)]
pub struct Score {
    pub melody: Vec<TimedNote>,
    pub chords: Vec<ChordSpec>,
    pub chord_roots: Vec<u8>,
    pub bass: Vec<BassSegment>,
    /// Samples each chord of the progression is held.
    pub samples_per_chord: u64,
    /// The song's authoritative length: the melody's sample count.
    pub total_samples: u64,
    pub params: SongParameters,
}

impl Score {
    /// The score's voices agree: the melody is drawn from the style's scale
    /// and rhythm, the progression is the style's table on the resolved
    /// root, and the bass covers exactly the melody's length on the chord
    /// grid.
    pub open spec fn wf(self) -> bool {
        &&& self.params.scale_root < 12
        &&& self.params.bpm >= 1
        &&& match self.params.style {
            Style::Jazz => melody_wf(
                self.melody@,
                self.params.scale_root,
                ScaleMode::Dorian,
                MELODY_OCTAVE,
                RhythmPattern::Complex,
                self.params.bpm,
            ) || melody_wf(
                self.melody@,
                self.params.scale_root,
                ScaleMode::Mixolydian,
                MELODY_OCTAVE,
                RhythmPattern::Complex,
                self.params.bpm,
            ),
            Style::Blues => melody_wf(
                self.melody@,
                self.params.scale_root,
                ScaleMode::Ionian,
                MELODY_OCTAVE,
                RhythmPattern::Syncopated,
                self.params.bpm,
            ),
            Style::Pop => melody_wf(
                self.melody@,
                self.params.scale_root,
                ScaleMode::Ionian,
                MELODY_OCTAVE,
                RhythmPattern::Medium,
                self.params.bpm,
            ),
            Style::Default => melody_wf(
                self.melody@,
                self.params.scale_root,
                ScaleMode::Ionian,
                MELODY_OCTAVE,
                RhythmPattern::Simple,
                self.params.bpm,
            ),
        }
        &&& progression_matches(
            self.chords@,
            self.chord_roots@,
            self.params.style,
            self.params.scale_root,
            self.samples_per_chord,
        )
        &&& melody_total_samples(self.melody@) <= u64::MAX ==> self.total_samples
            == melody_total_samples(self.melody@)
        &&& self.total_samples <= usize::MAX ==> bass_total_samples(self.bass@)
            == self.total_samples
    }
}

/// Compose one song from an application state.
///
/// The state's strings are resolved to song parameters; the melody, the
/// chord progression and the bass line are generated independently from the
/// one resolved seed; and the melody's length becomes the song's length,
/// which the bass line covers exactly.  The tempo drawn or parsed and the
/// minutes must be small enough for the note grid to fit the machine.
pub fn compose_song(st: &AppState) -> (r: Score)
    requires
        ({
            let minutes = match spec_parse_u32(spec_first_word(st.length@)) {
                Some(m) => m,
                None => 5u32,
            };
            let bpm_cap: int = match spec_parse_u32(st.bpm@) {
                Some(v) => if v > 0 {
                    v as int
                } else {
                    160
                },
                None => 160,
            };
            minutes * 60 * bpm_cap * 100 <= 0xFFFF_FFFF_FFFF_0000u64
        }),
    ensures
        r.wf(),
        r.params.scale_root == spec_scale_root(st.scale@),
        r.params.style == spec_style_of(st.style@),
        spec_parse_u64(st.seed@) is Some ==> r.params.seed == spec_parse_u64(st.seed@).unwrap(),
        r.params.minutes == 0 ==> r.melody@.len() == 0 && r.total_samples == 0,
        r.params.style == Style::Default && r.params.minutes as int * 60 <= u32::MAX
            ==> r.melody@.len() == r.params.minutes as int * r.params.bpm as int,
        r.params.style != Style::Default && r.params.minutes >= 1 ==> r.melody@.len() >= 1,
{
    let params = resolve_song_parameters(st);
    let duration_seconds: u32 = if params.minutes <= u32::MAX / 60 {
        params.minutes * 60
    } else {
        u32::MAX
    };
    proof {
        let ghost bpm_cap: int = match spec_parse_u32(st.bpm@) {
            Some(v) => if v > 0 {
                v as int
            } else {
                160
            },
            None => 160,
        };
        assert(params.bpm as int <= bpm_cap);
        assert(duration_seconds as int <= params.minutes as int * 60);
        assert(duration_seconds as int * params.bpm as int * 100 <= 0xFFFF_FFFF_FFFF_0000u64)
            by (nonlinear_arith)
            requires
                0 <= duration_seconds as int <= params.minutes as int * 60,
                1 <= params.bpm as int <= bpm_cap,
                params.minutes as int >= 0,
                params.minutes as int * 60 * bpm_cap * 100 <= 0xFFFF_FFFF_FFFF_0000u64,
        ;
    }
    let mut rng = rng_from_seed(params.seed);
    // One draw precedes the chord-grid draw in the seeded stream when the
    // tempo had to be drawn; re-create the stream the same way.
    let bpm_was_drawn = match parse_u32(st.bpm.as_str()) {
        Some(v) => v == 0,
        None => true,
    };
    if bpm_was_drawn {
        let _ = rng_below(&mut rng, 81);
    }
    let num_beats_per_chord = 2 + rng_below(&mut rng, 3);
    let spq = samples_per_quarter(params.bpm);
    proof {
        vstd::arithmetic::mul::lemma_mul_upper_bound(
            num_beats_per_chord as int,
            5,
            spq as int,
            60 * crate::melody::SAMPLE_RATE as int,
        );
    }
    let samples_per_chord = num_beats_per_chord * spq;

    let style_str = style_name(params.style);
    let melody = get_melody(
        style_str,
        params.scale_root,
        duration_seconds,
        params.bpm,
        params.seed,
    );
    let (chords, chord_roots) = get_progression(style_str, params.scale_root, samples_per_chord);
    proof {
        let m = params.minutes as int;
        let b = params.bpm as int;
        if m * 60 <= u32::MAX {
            assert(duration_seconds as int == m * 60);
            if params.style == Style::Default {
                assert(duration_seconds as int * b * 100 == 60 * (m * b * 100))
                    by (nonlinear_arith)
                    requires
                        duration_seconds as int == m * 60,
                ;
                vstd::arithmetic::div_mod::lemma_div_multiples_vanish(m * b * 100, 60);
                assert(m * b * 100 == 100 * (m * b)) by (nonlinear_arith);
                vstd::arithmetic::div_mod::lemma_div_multiples_vanish(m * b, 100);
                assert((duration_seconds as int * b * 100 / 60) / 100 == m * b);
            }
        }
    }

    let total_samples = total_melody_samples(&melody);
    let spc_usize: usize = if samples_per_chord <= usize::MAX as u64 {
        samples_per_chord as usize
    } else {
        usize::MAX
    };
    let total_usize: usize = if total_samples <= usize::MAX as u64 {
        total_samples as usize
    } else {
        usize::MAX
    };
    let bass = get_bass_line(
        style_str,
        &chord_roots,
        spc_usize,
        total_usize,
        params.bpm,
        params.seed,
    );

    proof {
        if params.minutes == 0 {
            assert(duration_seconds == 0);
        }
        if melody@.len() == 0 {
            assert(melody_total_samples(melody@) == 0);
        }
    }
    Score {
        melody,
        chords,
        chord_roots,
        bass,
        samples_per_chord,
        total_samples,
        params,
    }
}

} // verus!
