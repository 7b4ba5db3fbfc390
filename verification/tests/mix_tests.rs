use bitbeats::mix::{mix_tracks, MIX_UNIT};

#[test]
fn mixed_length_equals_melody_length() {
    let melody: Vec<i64> = vec![100; 977];
    let chords: Vec<i64> = vec![50; 300];
    let bass: Vec<i64> = vec![25; 977];
    let mixed = mix_tracks(&melody, &chords, &bass);
    assert_eq!(mixed.len(), melody.len());
}

#[test]
fn empty_melody_mixes_to_an_empty_buffer() {
    let melody: Vec<i64> = vec![];
    let chords: Vec<i64> = vec![1000; 44100];
    let bass: Vec<i64> = vec![];
    assert_eq!(mix_tracks(&melody, &chords, &bass).len(), 0);
}

#[test]
fn gains_are_an_eighth_a_half_and_three_fifths() {
    let melody: Vec<i64> = vec![80];
    let chords: Vec<i64> = vec![40];
    let bass: Vec<i64> = vec![50];
    let mixed = mix_tracks(&melody, &chords, &bass);
    assert_eq!(mixed, vec![80 / 8 + 40 / 2 + 50 * 3 / 5]);
}

#[test]
fn negative_samples_truncate_toward_zero() {
    let melody: Vec<i64> = vec![-81];
    let chords: Vec<i64> = vec![];
    let bass: Vec<i64> = vec![];
    let mixed = mix_tracks(&melody, &chords, &bass);
    assert_eq!(mixed, vec![-10]);
}

#[test]
fn chord_stream_is_indexed_cyclically() {
    let melody: Vec<i64> = vec![0; 5];
    let chords: Vec<i64> = vec![8, 16];
    let bass: Vec<i64> = vec![];
    let mixed = mix_tracks(&melody, &chords, &bass);
    assert_eq!(mixed, vec![4, 8, 4, 8, 4]);
}

#[test]
fn missing_bass_samples_count_as_silence() {
    let melody: Vec<i64> = vec![8, 8, 8];
    let chords: Vec<i64> = vec![];
    let bass: Vec<i64> = vec![10];
    let mixed = mix_tracks(&melody, &chords, &bass);
    assert_eq!(mixed, vec![1 + 6, 1, 1]);
}

#[test]
fn normalization_is_a_no_op_below_full_scale() {
    // Peak exactly at full scale: the buffer must come back bit-identical,
    // not attenuated.
    let melody: Vec<i64> = vec![MIX_UNIT * 8, -MIX_UNIT * 8, 800];
    let chords: Vec<i64> = vec![];
    let bass: Vec<i64> = vec![];
    let mixed = mix_tracks(&melody, &chords, &bass);
    assert_eq!(mixed, vec![MIX_UNIT, -MIX_UNIT, 100]);
}

#[test]
fn clipping_peaks_are_rescaled_to_full_scale() {
    let melody: Vec<i64> = vec![MIX_UNIT * 16, -MIX_UNIT * 16, MIX_UNIT * 8];
    let chords: Vec<i64> = vec![];
    let bass: Vec<i64> = vec![];
    let mixed = mix_tracks(&melody, &chords, &bass);
    // Peak before normalization is 2 * MIX_UNIT, so everything is halved.
    assert_eq!(mixed, vec![MIX_UNIT, -MIX_UNIT, MIX_UNIT / 2]);
}

#[test]
fn no_sample_ever_exceeds_full_scale() {
    let melody: Vec<i64> = (0..500).map(|i| (i - 250) * 4000).collect();
    let chords: Vec<i64> = (0..77).map(|i| i * 9999).collect();
    let bass: Vec<i64> = (0..500).map(|i| (250 - i) * 7777).collect();
    let mixed = mix_tracks(&melody, &chords, &bass);
    assert_eq!(mixed.len(), 500);
    for s in mixed {
        assert!(s.abs() <= MIX_UNIT);
    }
}
