//! Fixed-point mixing and peak normalization.
//!
//! Audio samples enter and leave this module as fixed-point integers in
//! which `MIX_UNIT` stands for full scale (an amplitude of one).  The mixer
//! sums melody, chord and bass streams with the fixed per-voice gains
//! (melody 1/8, chords 1/2, bass 3/5), aligns everything to the melody's
//! length — the chord stream is indexed cyclically, a missing bass sample
//! counts as silence — and then rescales the whole buffer only if its peak
//! would clip.

use vstd::arithmetic::div_mod::{
    lemma_div_is_ordered,
    lemma_div_multiples_vanish,
    lemma_div_nonincreasing,
    lemma_div_pos_is_pos,
};
use vstd::arithmetic::mul::lemma_mul_inequality;
use vstd::prelude::*;

verus! {

/// Fixed-point value standing for an amplitude of 1.0 (full scale).
pub const MIX_UNIT: i64 = 32768;

/// Largest magnitude a caller may hand the mixer.  The weighted sum of three
/// such samples times `MIX_UNIT` must stay inside `i64`.
pub const SAMPLE_LIMIT: i64 = 0x100_0000_0000;

/// Magnitude of an integer.
pub open spec fn abs_val(x: int) -> int {
    if x >= 0 {
        x
    } else {
        -x
    }
}

/// Division truncating toward zero, as Rust's `/` does on machine integers.
pub open spec fn div_trunc(a: int, q: int) -> int
    recommends
        q > 0,
{
    if a >= 0 {
        a / q
    } else {
        -((-a) / q)
    }
}

/// The chord stream is cyclic: sample `i` of a non-empty chord buffer is
/// taken modulo its length; an empty buffer contributes silence.
pub open spec fn chord_sample_at(chords: Seq<i64>, i: int) -> int {
    if chords.len() > 0 {
        chords[i % (chords.len() as int)] as int
    } else {
        0
    }
}

/// The bass stream contributes silence past its end.
pub open spec fn bass_sample_at(bass: Seq<i64>, i: int) -> int {
    if 0 <= i < bass.len() {
        bass[i] as int
    } else {
        0
    }
}

/// One mixed sample before normalization: the three voices scaled by the
/// fixed gains 1/8 (melody), 1/2 (chords) and 3/5 (bass).
pub open spec fn mix_sample(m: int, c: int, b: int) -> int {
    div_trunc(m, 8) + div_trunc(c, 2) + div_trunc(b * 3, 5)
}

/// The full pre-normalization mix, aligned to the melody's length.
pub open spec fn premix_at(melody: Seq<i64>, chords: Seq<i64>, bass: Seq<i64>, i: int) -> int {
    mix_sample(melody[i] as int, chord_sample_at(chords, i), bass_sample_at(bass, i))
}

/// Peak magnitude of a sequence of samples.
pub open spec fn peak_abs(s: Seq<int>) -> int
    decreases s.len(),
{
    if s.len() == 0 {
        0
    } else {
        let rest = peak_abs(s.drop_last());
        if abs_val(s.last()) > rest {
            abs_val(s.last())
        } else {
            rest
        }
    }
}

proof fn lemma_peak_abs_bounds(s: Seq<int>)
    ensures
        peak_abs(s) >= 0,
        forall|i: int| 0 <= i < s.len() ==> abs_val(#[trigger] s[i]) <= peak_abs(s),
    decreases s.len(),
{
    if s.len() > 0 {
        lemma_peak_abs_bounds(s.drop_last());
        assert forall|i: int| 0 <= i < s.len() implies abs_val(#[trigger] s[i]) <= peak_abs(
            s,
        ) by {
            if i < s.len() - 1 {
                assert(s.drop_last()[i] == s[i]);
            }
        }
    }
}

/// |div_trunc(a, q)| <= |a| / q when q > 0, stated via magnitudes.
proof fn lemma_div_trunc_abs(a: int, q: int)
    requires
        q > 0,
    ensures
        abs_val(div_trunc(a, q)) == abs_val(a) / q,
        abs_val(div_trunc(a, q)) <= abs_val(a),
{
    if a >= 0 {
        lemma_div_pos_is_pos(a, q);
        lemma_div_nonincreasing(a, q);
    } else {
        lemma_div_pos_is_pos(-a, q);
        lemma_div_nonincreasing(-a, q);
    }
}

/// Truncating division toward zero on a bounded `i64`, mirroring Rust's `/`.
fn div_trunc_exec(a: i64, q: i64) -> (r: i64)
    requires
        q > 0,
        a > i64::MIN,
    ensures
        r == div_trunc(a as int, q as int),
        abs_val(r as int) <= abs_val(a as int),
{
    proof {
        lemma_div_trunc_abs(a as int, q as int);
    }
    if a >= 0 {
        ((a as u64) / (q as u64)) as i64
    } else {
        let m = ((-a) as u64) / (q as u64);
        -(m as i64)
    }
}

/// Mix the three voices into one buffer of exactly the melody's length and
/// normalize the peak.
///
/// The result holds the pre-normalization mix unchanged when its peak does
/// not exceed full scale; otherwise every sample is rescaled by
/// `MIX_UNIT / peak`.  Either way no sample of the result exceeds full
/// scale in magnitude.
pub fn mix_tracks(melody: &Vec<i64>, chords: &Vec<i64>, bass: &Vec<i64>) -> (r: Vec<i64>)
    requires
        forall|i: int|
            0 <= i < melody@.len() ==> abs_val(#[trigger] melody@[i] as int) <= SAMPLE_LIMIT,
        forall|i: int|
            0 <= i < chords@.len() ==> abs_val(#[trigger] chords@[i] as int) <= SAMPLE_LIMIT,
        forall|i: int| 0 <= i < bass@.len() ==> abs_val(#[trigger] bass@[i] as int) <= SAMPLE_LIMIT,
    ensures
        r@.len() == melody@.len(),
        peak_abs(Seq::new(melody@.len(), |i: int| premix_at(melody@, chords@, bass@, i)))
            <= MIX_UNIT ==> forall|i: int|
            0 <= i < r@.len() ==> #[trigger] r@[i] as int == premix_at(melody@, chords@, bass@, i),
        peak_abs(Seq::new(melody@.len(), |i: int| premix_at(melody@, chords@, bass@, i)))
            > MIX_UNIT ==> forall|i: int|
            0 <= i < r@.len() ==> #[trigger] r@[i] as int == div_trunc(
                premix_at(melody@, chords@, bass@, i) * MIX_UNIT,
                peak_abs(Seq::new(melody@.len(), |i: int| premix_at(melody@, chords@, bass@, i))),
            ),
        forall|i: int| 0 <= i < r@.len() ==> abs_val(#[trigger] r@[i] as int) <= MIX_UNIT,
{
    let ghost premix_seq = Seq::new(
        melody@.len(),
        |i: int| premix_at(melody@, chords@, bass@, i),
    );
    let len = melody.len();
    let clen = chords.len();
    let blen = bass.len();

    let mut premix: Vec<i64> = Vec::new();
    let mut idx: usize = 0;
    while idx < len
        invariant
            len == melody@.len(),
            clen == chords@.len(),
            blen == bass@.len(),
            forall|i: int|
                0 <= i < melody@.len() ==> abs_val(#[trigger] melody@[i] as int) <= SAMPLE_LIMIT,
            forall|i: int|
                0 <= i < chords@.len() ==> abs_val(#[trigger] chords@[i] as int) <= SAMPLE_LIMIT,
            forall|i: int|
                0 <= i < bass@.len() ==> abs_val(#[trigger] bass@[i] as int) <= SAMPLE_LIMIT,
            idx <= len,
            premix@.len() == idx,
            premix_seq == Seq::new(melody@.len(), |i: int| premix_at(melody@, chords@, bass@, i)),
            forall|i: int| 0 <= i < idx ==> #[trigger] premix@[i] as int == premix_seq[i],
            forall|i: int|
                0 <= i < idx ==> abs_val(#[trigger] premix@[i] as int) <= 3 * SAMPLE_LIMIT,
        decreases len - idx,
    {
        let m = melody[idx];
        let c = if clen > 0 {
            chords[idx % clen]
        } else {
            0
        };
        let b = if idx < blen {
            bass[idx]
        } else {
            0
        };
        proof {
            lemma_div_trunc_abs(b as int * 3, 5);
        }
        let v = div_trunc_exec(m, 8) + div_trunc_exec(c, 2) + div_trunc_exec(b * 3, 5);
        premix.push(v);
        idx = idx + 1;
    }

    let mut peak: i64 = 0;
    let mut idx2: usize = 0;
    proof {
        lemma_peak_abs_bounds(premix_seq);
    }
    while idx2 < len
        invariant
            len == premix@.len(),
            premix_seq.len() == len,
            forall|i: int| 0 <= i < premix@.len() ==> #[trigger] premix@[i] as int == premix_seq[i],
            idx2 <= len,
            forall|i: int|
                0 <= i < premix@.len() ==> abs_val(#[trigger] premix@[i] as int) <= 3
                    * SAMPLE_LIMIT,
            peak == peak_abs(premix_seq.take(idx2 as int)),
            0 <= peak <= 3 * SAMPLE_LIMIT,
        decreases len - idx2,
    {
        let x = premix[idx2];
        let ax = if x >= 0 {
            x
        } else {
            -x
        };
        proof {
            assert(premix_seq.take(idx2 as int + 1).drop_last() =~= premix_seq.take(idx2 as int));
            assert(premix_seq.take(idx2 as int + 1).last() == premix_seq[idx2 as int]);
        }
        if ax > peak {
            peak = ax;
        }
        idx2 = idx2 + 1;
    }
    proof {
        assert(premix_seq.take(len as int) =~= premix_seq);
    }

    if peak <= MIX_UNIT {
        return premix;
    }

    let mut out: Vec<i64> = Vec::new();
    let mut idx3: usize = 0;
    while idx3 < len
        invariant
            len == premix@.len(),
            premix_seq.len() == len,
            forall|i: int| 0 <= i < premix@.len() ==> #[trigger] premix@[i] as int == premix_seq[i],
            MIX_UNIT < peak <= 3 * SAMPLE_LIMIT,
            peak == peak_abs(premix_seq),
            forall|i: int|
                0 <= i < premix@.len() ==> abs_val(#[trigger] premix@[i] as int) <= 3
                    * SAMPLE_LIMIT,
            forall|i: int| 0 <= i < premix@.len() ==> abs_val(premix_seq[i]) <= peak,
            idx3 <= len,
            out@.len() == idx3,
            forall|i: int|
                0 <= i < idx3 ==> #[trigger] out@[i] as int == div_trunc(
                    premix_seq[i] * MIX_UNIT,
                    peak as int,
                ),
            forall|i: int| 0 <= i < idx3 ==> abs_val(#[trigger] out@[i] as int) <= MIX_UNIT,
        decreases len - idx3,
    {
        let x = premix[idx3];
        proof {
            lemma_mul_inequality(abs_val(x as int), peak as int, MIX_UNIT as int);
            assert(abs_val(x as int * MIX_UNIT) == abs_val(x as int) * MIX_UNIT)
                by (nonlinear_arith);
            lemma_div_trunc_abs(x as int * MIX_UNIT, peak as int);
            lemma_div_is_ordered(abs_val(x as int) * MIX_UNIT, peak as int * MIX_UNIT, peak as int);
            lemma_div_multiples_vanish(MIX_UNIT as int, peak as int);
        }
        let scaled = div_trunc_exec(x * MIX_UNIT, peak);
        out.push(scaled);
        idx3 = idx3 + 1;
    }
    out
}

} // verus!
