//! Melody generation: a rhythm-pattern duration sequence in centibeats, a
//! constrained random walk over the scale degrees, and the assembly of both
//! into timed notes on the 44100 Hz sample grid.
//!
//! A centibeat is a hundredth of a quarter-note beat, so every duration the
//! rhythm patterns use (quarter 100, eighth 50, sixteenth 25, the dotted and
//! swung values 75, 66, 34) is exact on the grid.

use vstd::prelude::*;

use crate::pitch::Note;
use crate::rng::{rng_below, rng_bool, rng_from_seed};
use crate::style::{spec_style_of, Style};
use crate::theory::{scale_offsets, scale_pitch_classes, ScaleMode};

verus! {

/// Samples per second, fixed for the whole crate.
pub const SAMPLE_RATE: u64 = 44100;

/// The rhythmic feels a melody can follow.
#[derive(Clone, Copy, Debug, PartialEq, Eq, Structural)]
pub enum RhythmPattern {
    /// All quarter notes.
    Simple,
    /// Quarter or eighth notes, an even draw per step.
    Medium,
    /// Quarter, eighth or sixteenth notes, drawn 25/50/25.
    Complex,
    /// Alternating short on-beat and long off-beat notes.
    Syncopated,
    /// Alternating long/short swung pairs.
    Swung,
}

/// A melody note with its duration, both in centibeats and as the sample
/// count it occupies at the given tempo.
#[derive(Clone, Copy, Debug, PartialEq, Eq, Structural)]
pub struct TimedNote {
    pub note: Note,
    pub centibeats: u32,
    pub samples: u64,
}

/// The durations a rhythm pattern may emit, in centibeats.  For the
/// alternating patterns the position parity decides which side of the
/// alternation applies.
pub open spec fn pattern_allows(pattern: RhythmPattern, position: int, cb: int) -> bool {
    match pattern {
        RhythmPattern::Simple => cb == 100,
        RhythmPattern::Medium => cb == 50 || cb == 100,
        RhythmPattern::Complex => cb == 25 || cb == 50 || cb == 100,
        RhythmPattern::Syncopated => if position % 2 == 0 {
            cb == 25 || cb == 50
        } else {
            cb == 75 || cb == 100
        },
        RhythmPattern::Swung => if position % 2 == 0 {
            cb == 66
        } else {
            cb == 34
        },
    }
}

/// Sum of a centibeat sequence.
pub open spec fn cb_sum(s: Seq<u32>) -> int
    decreases s.len(),
{
    if s.len() == 0 {
        0
    } else {
        cb_sum(s.drop_last()) + s.last()
    }
}

proof fn lemma_cb_sum_push(s: Seq<u32>, v: u32)
    ensures
        cb_sum(s.push(v)) == cb_sum(s) + v,
{
    assert(s.push(v).drop_last() =~= s);
}

/// Samples in one quarter note at the given tempo: sixty seconds of samples
/// divided by the beats per minute, rounded down.
pub open spec fn spec_samples_per_quarter(bpm: u32) -> int
    recommends
        bpm > 0,
{
    (60 * SAMPLE_RATE) / bpm as int
}

/// Samples in a duration of `cb` centibeats at the given tempo.
pub open spec fn spec_note_samples(cb: int, bpm: u32) -> int
    recommends
        bpm > 0,
{
    cb * spec_samples_per_quarter(bpm) / 100
}

pub fn samples_per_quarter(bpm: u32) -> (r: u64)
    requires
        bpm > 0,
    ensures
        r == spec_samples_per_quarter(bpm),
        r <= 60 * SAMPLE_RATE,
{
    proof {
        vstd::arithmetic::div_mod::lemma_div_nonincreasing(60 * SAMPLE_RATE as int, bpm as int);
    }
    (60 * SAMPLE_RATE) / (bpm as u64)
}

/// Generate the duration sequence for one melody: draw durations from the
/// pattern until their running sum reaches the target, in centibeats.
///
/// `Simple` fits whole quarter notes under the target.  `Medium` and
/// `Complex` stop at the first draw that reaches the target, so they
/// overshoot it by less than one beat.  The alternating patterns
/// (`Syncopated`, `Swung`) instead discard a draw that would overshoot —
/// unless it is the very first, so a short target still yields one note —
/// and therefore stay at or under the target.
pub fn generate_durations(
    pattern: RhythmPattern,
    target_cb: u64,
    rng: &mut rand::rngs::StdRng,
) -> (r: Vec<u32>)
    requires
        target_cb <= 0xFFFF_FFFF_FFFF_0000u64,
    ensures
        forall|i: int|
            0 <= i < r@.len() ==> pattern_allows(pattern, i, #[trigger] r@[i] as int),
        target_cb == 0 ==> r@.len() == 0,
        pattern == RhythmPattern::Simple ==> r@.len() == target_cb as int / 100,
        pattern == RhythmPattern::Medium || pattern == RhythmPattern::Complex ==> cb_sum(r@)
            >= target_cb && cb_sum(r@) < target_cb + 100,
        pattern == RhythmPattern::Syncopated || pattern == RhythmPattern::Swung ==> cb_sum(r@)
            <= target_cb || r@.len() == 1,
        pattern != RhythmPattern::Simple && target_cb > 0 ==> r@.len() >= 1,
{
    let mut durations: Vec<u32> = Vec::new();
    match pattern {
        RhythmPattern::Simple => {
            let n = target_cb / 100;
            let mut i: u64 = 0;
            while i < n
                invariant
                    i <= n,
                    durations@.len() == i,
                    forall|j: int| 0 <= j < i ==> #[trigger] durations@[j] == 100,
                decreases n - i,
            {
                durations.push(100);
                i = i + 1;
            }
            durations
        },
        RhythmPattern::Medium => {
            let mut sum: u64 = 0;
            while sum < target_cb
                invariant
                    target_cb <= 0xFFFF_FFFF_FFFF_0000u64,
                    sum == cb_sum(durations@),
                    sum < target_cb + 100,
                    sum > 0 ==> durations@.len() > 0,
                    durations@.len() == 0 ==> sum == 0,
                    target_cb == 0 ==> durations@.len() == 0,
                    forall|j: int|
                        0 <= j < durations@.len() ==> #[trigger] durations@[j] == 50
                            || durations@[j] == 100,
                decreases target_cb + 100 - sum,
            {
                let d: u32 = if rng_bool(rng) {
                    100
                } else {
                    50
                };
                proof {
                    lemma_cb_sum_push(durations@, d);
                }
                durations.push(d);
                sum = sum + d as u64;
            }
            durations
        },
        RhythmPattern::Complex => {
            let mut sum: u64 = 0;
            while sum < target_cb
                invariant
                    target_cb <= 0xFFFF_FFFF_FFFF_0000u64,
                    sum == cb_sum(durations@),
                    sum < target_cb + 100,
                    durations@.len() == 0 ==> sum == 0,
                    target_cb == 0 ==> durations@.len() == 0,
                    forall|j: int|
                        0 <= j < durations@.len() ==> #[trigger] durations@[j] == 25
                            || durations@[j] == 50 || durations@[j] == 100,
                decreases target_cb + 100 - sum,
            {
                let roll = rng_below(rng, 4);
                let d: u32 = if roll == 0 {
                    100
                } else if roll < 3 {
                    50
                } else {
                    25
                };
                proof {
                    lemma_cb_sum_push(durations@, d);
                }
                durations.push(d);
                sum = sum + d as u64;
            }
            durations
        },
        RhythmPattern::Syncopated => {
            let mut sum: u64 = 0;
            let mut done = false;
            while !done && sum < target_cb
                invariant
                    target_cb <= 0xFFFF_FFFF_FFFF_0000u64,
                    sum == cb_sum(durations@),
                    sum <= target_cb || durations@.len() == 1,
                    target_cb == 0 ==> durations@.len() == 0,
                    done ==> durations@.len() >= 1,
                    durations@.len() == 0 ==> sum == 0,
                    forall|j: int|
                        0 <= j < durations@.len() ==> pattern_allows(
                            RhythmPattern::Syncopated,
                            j,
                            #[trigger] durations@[j] as int,
                        ),
                decreases target_cb + 100 - sum, (if done { 0int } else { 1int }),
            {
                let d: u32 = if durations.len() % 2 == 0 {
                    if rng_bool(rng) {
                        50
                    } else {
                        25
                    }
                } else {
                    if rng_bool(rng) {
                        100
                    } else {
                        75
                    }
                };
                if sum + d as u64 > target_cb && durations.len() > 0 {
                    done = true;
                } else {
                    proof {
                        lemma_cb_sum_push(durations@, d);
                    }
                    durations.push(d);
                    sum = sum + d as u64;
                }
            }
            durations
        },
        RhythmPattern::Swung => {
            let mut sum: u64 = 0;
            let mut done = false;
            while !done && sum < target_cb
                invariant
                    target_cb <= 0xFFFF_FFFF_FFFF_0000u64,
                    sum == cb_sum(durations@),
                    sum <= target_cb || durations@.len() == 1,
                    target_cb == 0 ==> durations@.len() == 0,
                    done ==> durations@.len() >= 1,
                    durations@.len() == 0 ==> sum == 0,
                    forall|j: int|
                        0 <= j < durations@.len() ==> pattern_allows(
                            RhythmPattern::Swung,
                            j,
                            #[trigger] durations@[j] as int,
                        ),
                decreases target_cb + 100 - sum, (if done { 0int } else { 1int }),
            {
                let d: u32 = if durations.len() % 2 == 0 {
                    66
                } else {
                    34
                };
                if sum + d as u64 > target_cb && durations.len() > 0 {
                    done = true;
                } else {
                    proof {
                        lemma_cb_sum_push(durations@, d);
                    }
                    durations.push(d);
                    sum = sum + d as u64;
                }
            }
            durations
        },
    }
}

/// A pitch class drawn from the given scale: it sits some scale degree
/// above the tonic on the 12-tone circle.
pub open spec fn in_scale(pc: u8, tonic: u8, mode: ScaleMode) -> bool {
    exists|j: int| 0 <= j < 8 && pc == (tonic + scale_offsets(mode)[j]) % 12
}

/// Walk the scale degrees to pick one note per duration.
///
/// The first note is the root or the fifth; later notes move from the
/// previous degree by a weighted jump (steps of one or two degrees appear
/// twice among the candidates, leaps of three or four once), clipped to the
/// scale before anything is drawn, so the walk can never leave the scale.
/// The last note is biased toward the root and fifth.  Each note after the
/// first may shift one octave up or down with a five-percent chance.
pub fn generate_melody_notes(
    scale: &Vec<u8>,
    octave: u8,
    count: usize,
    rng: &mut rand::rngs::StdRng,
) -> (r: Vec<Note>)
    requires
        scale@.len() == 8,
        forall|i: int| 0 <= i < 8 ==> #[trigger] scale@[i] < 12,
        1 <= octave <= 250,
    ensures
        r@.len() == count,
        forall|i: int| 0 <= i < count ==> (#[trigger] r@[i]).wf(),
        forall|i: int| 0 <= i < count ==> scale@.contains((#[trigger] r@[i]).pitch_class),
        forall|i: int|
            0 <= i < count ==> octave - 1 <= (#[trigger] r@[i]).octave <= octave + 1,
{
    let mut notes: Vec<Note> = Vec::new();
    let mut prev: usize = 0;
    let mut i: usize = 0;
    while i < count
        invariant
            scale@.len() == 8,
            forall|k: int| 0 <= k < 8 ==> #[trigger] scale@[k] < 12,
            1 <= octave <= 250,
            prev < 8,
            i <= count,
            notes@.len() == i,
            forall|k: int| 0 <= k < i ==> (#[trigger] notes@[k]).wf(),
            forall|k: int| 0 <= k < i ==> scale@.contains((#[trigger] notes@[k]).pitch_class),
            forall|k: int|
                0 <= k < i ==> octave - 1 <= (#[trigger] notes@[k]).octave <= octave + 1,
        decreases count - i,
    {
        if i == 0 {
            let idx: usize = if rng_bool(rng) {
                0
            } else {
                4
            };
            let pc = scale[idx];
            proof {
                assert(scale@.contains(pc)) by {
                    assert(scale@[idx as int] == pc);
                }
            }
            notes.push(Note { pitch_class: pc, octave });
            prev = idx;
        } else {
            let mut jumps: Vec<usize> = Vec::new();
            if prev >= 2 {
                jumps.push(prev - 2);
                jumps.push(prev - 2);
            }
            if prev >= 1 {
                jumps.push(prev - 1);
                jumps.push(prev - 1);
            }
            if prev + 1 < 8 {
                jumps.push(prev + 1);
                jumps.push(prev + 1);
            }
            if prev + 2 < 8 {
                jumps.push(prev + 2);
                jumps.push(prev + 2);
            }
            if prev >= 4 {
                jumps.push(prev - 4);
            }
            if prev >= 3 {
                jumps.push(prev - 3);
            }
            if prev + 3 < 8 {
                jumps.push(prev + 3);
            }
            if prev + 4 < 8 {
                jumps.push(prev + 4);
            }
            if i == count - 1 {
                jumps.push(0);
                jumps.push(0);
                jumps.push(0);
                jumps.push(0);
                jumps.push(0);
                jumps.push(4);
            }
            assert(jumps@.len() > 0);
            let pick = rng_below(rng, jumps.len() as u64) as usize;
            let idx = jumps[pick];
            assert(idx < 8);
            let oct: u8 = if rng_below(rng, 100) < 5 {
                if rng_bool(rng) {
                    octave + 1
                } else {
                    octave - 1
                }
            } else {
                octave
            };
            let pc = scale[idx];
            proof {
                assert(scale@.contains(pc)) by {
                    assert(scale@[idx as int] == pc);
                }
            }
            notes.push(Note { pitch_class: pc, octave: oct });
            prev = idx;
        }
        i = i + 1;
    }
    notes
}

/// Every note of a generated melody is well formed, drawn from the scale of
/// the given tonic and mode, within one octave of the base octave, and
/// carries a duration the pattern allows, laid out on the sample grid of
/// the given tempo.
pub open spec fn melody_wf(
    r: Seq<TimedNote>,
    tonic: u8,
    mode: ScaleMode,
    octave: u8,
    pattern: RhythmPattern,
    bpm: u32,
) -> bool {
    forall|i: int|
        0 <= i < r.len() ==> {
            let t = #[trigger] r[i];
            &&& t.note.wf()
            &&& in_scale(t.note.pitch_class, tonic, mode)
            &&& octave - 1 <= t.note.octave <= octave + 1
            &&& pattern_allows(pattern, i, t.centibeats as int)
            &&& t.samples == spec_note_samples(t.centibeats as int, bpm)
        }
}

/// Generate a whole melody: build the scale, draw the duration sequence,
/// walk the scale degrees, and time each note on the sample grid.  The
/// melody is determined by the seed it is given.
pub fn generate_melody_samples(
    root_note: u8,
    mode: ScaleMode,
    octave: u8,
    rhythm_pattern: RhythmPattern,
    duration_seconds: u32,
    bpm: u32,
    seed: u64,
) -> (r: Vec<TimedNote>)
    requires
        root_note < 12,
        1 <= octave <= 250,
        1 <= bpm,
        duration_seconds as int * bpm as int * 100 <= 0xFFFF_FFFF_FFFF_0000u64,
    ensures
        melody_wf(r@, root_note, mode, octave, rhythm_pattern, bpm),
        duration_seconds == 0 ==> r@.len() == 0,
        rhythm_pattern == RhythmPattern::Simple ==> r@.len() == (duration_seconds as int
            * bpm as int * 100 / 60) / 100,
        rhythm_pattern != RhythmPattern::Simple && duration_seconds >= 1 ==> r@.len() >= 1,
{
    let mut rng = rng_from_seed(seed);
    let scale = scale_pitch_classes(root_note, mode);
    let target_cb = (duration_seconds as u64) * (bpm as u64) * 100 / 60;
    proof {
        if duration_seconds >= 1 {
            assert(duration_seconds as int * bpm as int * 100 >= 100) by (nonlinear_arith)
                requires
                    duration_seconds as int >= 1,
                    bpm as int >= 1,
            ;
            vstd::arithmetic::div_mod::lemma_div_is_ordered(
                100,
                duration_seconds as int * bpm as int * 100,
                60,
            );
            assert(target_cb >= 100int / 60);
        }
    }
    let durations = generate_durations(rhythm_pattern, target_cb, &mut rng);
    let notes = generate_melody_notes(&scale, octave, durations.len(), &mut rng);
    let spq = samples_per_quarter(bpm);

    let mut melody: Vec<TimedNote> = Vec::new();
    let mut i: usize = 0;
    while i < durations.len()
        invariant
            notes@.len() == durations@.len(),
            i <= durations@.len(),
            melody@.len() == i,
            spq == spec_samples_per_quarter(bpm),
            spq <= 60 * SAMPLE_RATE,
            bpm >= 1,
            scale@.len() == 8,
            forall|k: int|
                0 <= k < 8 ==> #[trigger] scale@[k] == (root_note + scale_offsets(mode)[k]) % 12,
            forall|k: int| 0 <= k < notes@.len() ==> (#[trigger] notes@[k]).wf(),
            forall|k: int|
                0 <= k < notes@.len() ==> scale@.contains((#[trigger] notes@[k]).pitch_class),
            forall|k: int|
                0 <= k < notes@.len() ==> octave - 1 <= (#[trigger] notes@[k]).octave <= octave
                    + 1,
            forall|k: int|
                0 <= k < durations@.len() ==> pattern_allows(
                    rhythm_pattern,
                    k,
                    #[trigger] durations@[k] as int,
                ),
            forall|k: int|
                0 <= k < i ==> {
                    let t = #[trigger] melody@[k];
                    &&& t.note == notes@[k]
                    &&& t.centibeats == durations@[k]
                    &&& t.samples == spec_note_samples(t.centibeats as int, bpm)
                },
        decreases durations@.len() - i,
    {
        let cb = durations[i];
        let note = notes[i];
        proof {
            assert(pattern_allows(rhythm_pattern, i as int, cb as int));
            assert(cb <= 100);
            vstd::arithmetic::mul::lemma_mul_upper_bound(
                cb as int,
                100,
                spq as int,
                60 * SAMPLE_RATE as int,
            );
        }
        let samples = (cb as u64) * spq / 100;
        melody.push(TimedNote { note, centibeats: cb, samples });
        i = i + 1;
    }
    proof {
        assert forall|k: int| 0 <= k < melody@.len() implies {
            let t = #[trigger] melody@[k];
            &&& t.note.wf()
            &&& in_scale(t.note.pitch_class, root_note, mode)
            &&& octave - 1 <= t.note.octave <= octave + 1
            &&& pattern_allows(rhythm_pattern, k, t.centibeats as int)
            &&& t.samples == spec_note_samples(t.centibeats as int, bpm)
        } by {
            let t = melody@[k];
            assert(scale@.contains(t.note.pitch_class));
            let j = choose|j: int| 0 <= j < scale@.len() && scale@[j] == t.note.pitch_class;
            assert(t.note.pitch_class == (root_note + scale_offsets(mode)[j]) % 12);
        }
    }
    melody
}

/// Which rhythm pattern each style follows.
pub open spec fn style_pattern(style: Style) -> RhythmPattern {
    match style {
        Style::Blues => RhythmPattern::Syncopated,
        Style::Pop => RhythmPattern::Medium,
        Style::Jazz => RhythmPattern::Complex,
        Style::Default => RhythmPattern::Simple,
    }
}

/// The base octave every melody is generated in.
pub const MELODY_OCTAVE: u8 = 3;

/// Generate the melody for a style: the style picks the scale mode and the
/// rhythm pattern (jazz draws Dorian or Mixolydian from the same seeded
/// stream), and the melody itself is produced by `generate_melody_samples`
/// from the same seed.
pub fn get_melody(
    style: &str,
    root: u8,
    duration_seconds: u32,
    bpm: u32,
    seed: u64,
) -> (r: Vec<TimedNote>)
    requires
        root < 12,
        1 <= bpm,
        duration_seconds as int * bpm as int * 100 <= 0xFFFF_FFFF_FFFF_0000u64,
    ensures
        spec_style_of(style@) != Style::Jazz ==> melody_wf(
            r@,
            root,
            ScaleMode::Ionian,
            MELODY_OCTAVE,
            style_pattern(spec_style_of(style@)),
            bpm,
        ),
        spec_style_of(style@) == Style::Jazz ==> (melody_wf(
            r@,
            root,
            ScaleMode::Dorian,
            MELODY_OCTAVE,
            RhythmPattern::Complex,
            bpm,
        ) || melody_wf(r@, root, ScaleMode::Mixolydian, MELODY_OCTAVE, RhythmPattern::Complex, bpm)),
        duration_seconds == 0 ==> r@.len() == 0,
        spec_style_of(style@) == Style::Default ==> r@.len() == (duration_seconds as int
            * bpm as int * 100 / 60) / 100,
        spec_style_of(style@) != Style::Default && duration_seconds >= 1 ==> r@.len() >= 1,
{
    let style_tag = crate::style::style_of(style);
    let mut rng = rng_from_seed(seed);
    match style_tag {
        Style::Blues => generate_melody_samples(
            root,
            ScaleMode::Ionian,
            MELODY_OCTAVE,
            RhythmPattern::Syncopated,
            duration_seconds,
            bpm,
            seed,
        ),
        Style::Pop => generate_melody_samples(
            root,
            ScaleMode::Ionian,
            MELODY_OCTAVE,
            RhythmPattern::Medium,
            duration_seconds,
            bpm,
            seed,
        ),
        Style::Jazz => {
            let jazz_mode = if rng_bool(&mut rng) {
                ScaleMode::Dorian
            } else {
                ScaleMode::Mixolydian
            };
            generate_melody_samples(
                root,
                jazz_mode,
                MELODY_OCTAVE,
                RhythmPattern::Complex,
                duration_seconds,
                bpm,
                seed,
            )
        },
        Style::Default => generate_melody_samples(
            root,
            ScaleMode::Ionian,
            MELODY_OCTAVE,
            RhythmPattern::Simple,
            duration_seconds,
            bpm,
            seed,
        ),
    }
}

/// Total sample count of a melody: the sum of its notes' durations.
pub open spec fn melody_total_samples(s: Seq<TimedNote>) -> int
    decreases s.len(),
{
    if s.len() == 0 {
        0
    } else {
        melody_total_samples(s.drop_last()) + s.last().samples
    }
}

/// Sum the sample counts of a melody, saturating at `u64::MAX` (which no
/// playable melody reaches).
pub fn total_melody_samples(melody: &Vec<TimedNote>) -> (r: u64)
    ensures
        melody_total_samples(melody@) <= u64::MAX ==> r == melody_total_samples(melody@),
{
    let mut sum: u64 = 0;
    let mut i: usize = 0;
    let mut saturated = false;
    while i < melody.len()
        invariant
            i <= melody@.len(),
            !saturated ==> sum == melody_total_samples(melody@.take(i as int)),
            saturated ==> melody_total_samples(melody@.take(i as int)) > u64::MAX,
            melody_total_samples(melody@.take(i as int)) >= 0,
        decreases melody@.len() - i,
    {
        proof {
            assert(melody@.take(i as int + 1).drop_last() =~= melody@.take(i as int));
            assert(melody@.take(i as int + 1).last() == melody@[i as int]);
        }
        let s = melody[i].samples;
        if !saturated {
            if sum <= u64::MAX - s {
                sum = sum + s;
            } else {
                saturated = true;
                sum = u64::MAX;
            }
        }
        i = i + 1;
    }
    proof {
        assert(melody@.take(melody@.len() as int) =~= melody@);
    }
    sum
}

} // verus!
