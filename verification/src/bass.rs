//! Bass line derivation: walk the chord roots on the chord-duration grid,
//! transpose each one octave down (floor-clamped), and lay the result out as
//! segments that together cover exactly the requested sample count.

use vstd::prelude::*;

verus! {

/// One stretch of the bass line: a MIDI-style note held for `samples`
/// samples, or silence when `note` is `None`.  Within a segment the
/// oscillator phase starts at zero, which matches the chord-window phase of
/// the per-sample formulation: every segment starts on a chord boundary.
#[derive(Clone, Copy, Debug, PartialEq, Eq, Structural)]
pub struct BassSegment {
    pub note: Option<u8>,
    pub samples: usize,
}

/// Spec twin of `transpose_down_octave`.
pub open spec fn spec_transpose_down_octave(midi: u8) -> u8 {
    if midi >= 12 {
        (midi - 12) as u8
    } else {
        midi
    }
}

/// Drop a MIDI-style note by one octave, but never below the representable
/// floor: a note already inside the lowest octave is returned unchanged.
pub fn transpose_down_octave(midi: u8) -> (r: u8)
    ensures
        r == spec_transpose_down_octave(midi),
        midi >= 12 ==> r == midi - 12,
        midi < 12 ==> r == midi,
{
    if midi >= 12 {
        midi - 12
    } else {
        midi
    }
}

/// Total sample count of a bass line.
pub open spec fn bass_total_samples(segs: Seq<BassSegment>) -> int
    decreases segs.len(),
{
    if segs.len() == 0 {
        0
    } else {
        segs[0].samples + bass_total_samples(segs.skip(1))
    }
}

proof fn lemma_bass_total_push(segs: Seq<BassSegment>, seg: BassSegment)
    ensures
        bass_total_samples(segs.push(seg)) == bass_total_samples(segs) + seg.samples,
    decreases segs.len(),
{
    assert(bass_total_samples(Seq::<BassSegment>::empty()) == 0);
    if segs.len() == 0 {
        assert(segs.push(seg).skip(1) =~= Seq::<BassSegment>::empty());
        assert(bass_total_samples(segs.push(seg).skip(1)) == 0);
    } else {
        assert(segs.push(seg).skip(1) =~= segs.skip(1).push(seg));
        lemma_bass_total_push(segs.skip(1), seg);
    }
}

/// Generate the bass line for one song as a sequence of segments.
///
/// Segment `k` covers the `k`-th chord window of `samples_per_chord`
/// samples (the final window is cut short so the line is exactly
/// `total_samples` long) and plays the root of chord `k % chord_root_notes.len()`
/// transposed one octave down, clamped at the floor.  An empty root list or
/// a zero chord window degrades to one silent segment of the full length.
/// The style, bpm and seed inputs are reserved for rhythmic variation and do
/// not yet influence the line.
pub fn get_bass_line(
    _style: &str,
    chord_root_notes: &Vec<u8>,
    samples_per_chord: usize,
    total_samples: usize,
    _bpm: u32,
    _seed: u64,
) -> (r: Vec<BassSegment>)
    ensures
        bass_total_samples(r@) == total_samples,
        chord_root_notes@.len() == 0 || samples_per_chord == 0 ==> r@ =~= seq![
            BassSegment { note: None, samples: total_samples },
        ],
        chord_root_notes@.len() > 0 && samples_per_chord > 0 ==> forall|k: int|
            0 <= k < r@.len() ==> (#[trigger] r@[k]).note == Some(
                spec_transpose_down_octave(
                    chord_root_notes@[k % (chord_root_notes@.len() as int)],
                ),
            ),
        chord_root_notes@.len() > 0 && samples_per_chord > 0 ==> forall|k: int|
            0 <= k < r@.len() ==> (#[trigger] r@[k]).samples == if (k + 1) * samples_per_chord
                <= total_samples {
                samples_per_chord as int
            } else {
                total_samples - k * samples_per_chord
            },
        chord_root_notes@.len() > 0 && samples_per_chord > 0 ==> forall|k: int|
            0 <= k < r@.len() ==> (#[trigger] r@[k]).samples > 0,
{
    if chord_root_notes.len() == 0 || samples_per_chord == 0 {
        let mut silent: Vec<BassSegment> = Vec::new();
        silent.push(BassSegment { note: None, samples: total_samples });
        proof {
            assert(bass_total_samples(Seq::<BassSegment>::empty()) == 0);
            assert(silent@.skip(1) =~= Seq::<BassSegment>::empty());
            assert(bass_total_samples(silent@.skip(1)) == 0);
        }
        return silent;
    }

    let n = chord_root_notes.len();
    let mut segments: Vec<BassSegment> = Vec::new();
    let mut covered: usize = 0;
    let mut k: usize = 0;
    while covered < total_samples
        invariant
            chord_root_notes@.len() == n,
            n > 0,
            samples_per_chord > 0,
            covered == k * samples_per_chord || covered == total_samples,
            covered <= total_samples,
            k <= covered,
            segments@.len() == k,
            bass_total_samples(segments@) == covered,
            covered < total_samples ==> covered == k * samples_per_chord,
            forall|j: int|
                0 <= j < k ==> (#[trigger] segments@[j]).note == Some(
                    spec_transpose_down_octave(chord_root_notes@[j % (n as int)]),
                ),
            forall|j: int|
                0 <= j < k ==> (#[trigger] segments@[j]).samples == if (j + 1) * samples_per_chord
                    <= total_samples {
                    samples_per_chord as int
                } else {
                    total_samples - j * samples_per_chord
                },
            forall|j: int| 0 <= j < k ==> (#[trigger] segments@[j]).samples > 0,
        decreases total_samples - covered,
    {
        let remaining = total_samples - covered;
        let len = if samples_per_chord <= remaining {
            samples_per_chord
        } else {
            remaining
        };
        let root = chord_root_notes[k % n];
        let seg = BassSegment { note: Some(transpose_down_octave(root)), samples: len };
        proof {
            lemma_bass_total_push(segments@, seg);
            assert((k + 1) * samples_per_chord == k * samples_per_chord + samples_per_chord)
                by (nonlinear_arith);
        }
        segments.push(seg);
        covered = covered + len;
        k = k + 1;
    }
    segments
}

} // verus!
