use bitbeats::bass::{get_bass_line, transpose_down_octave, BassSegment};
use bitbeats::progression::{generate_chord_samples, get_progression};
use bitbeats::theory::{ChordNumber, ChordQuality};

#[test]
fn blues_progression_is_one_four_five_four() {
    let (chords, roots) = get_progression("blues", 0, 1000);
    assert_eq!(chords.len(), 4);
    assert_eq!(roots, vec![36, 41, 43, 41]);
    for c in &chords {
        assert_eq!(c.quality, ChordQuality::Major);
        assert_eq!(c.number, ChordNumber::Triad);
        assert_eq!(c.samples, 1000);
        assert_eq!(c.tones.len(), 3);
    }
    assert_eq!(chords[0].root, 0);
    assert_eq!(chords[1].root, 5);
    assert_eq!(chords[2].root, 7);
    assert_eq!(chords[3].root, 5);
}

#[test]
fn pop_progression_has_a_minor_sixth_degree() {
    let (chords, roots) = get_progression("pop", 2, 500);
    assert_eq!(roots, vec![38, 45, 47, 43]);
    assert_eq!(chords[2].quality, ChordQuality::Minor);
    assert_eq!(chords[2].root, 11);
    assert_eq!(chords[0].quality, ChordQuality::Major);
}

#[test]
fn jazz_progression_is_two_five_one_sevenths() {
    let (chords, roots) = get_progression("jazz", 0, 700);
    assert_eq!(chords.len(), 3);
    assert_eq!(roots, vec![38, 43, 36]);
    assert_eq!(chords[0].quality, ChordQuality::Minor);
    assert_eq!(chords[1].quality, ChordQuality::Dominant);
    assert_eq!(chords[2].quality, ChordQuality::Major);
    for c in &chords {
        assert_eq!(c.number, ChordNumber::Seventh);
        assert_eq!(c.tones.len(), 4);
    }
}

#[test]
fn unknown_progression_falls_back_to_the_default_table() {
    let (nonsense_chords, nonsense_roots) = get_progression("nonsense", 4, 800);
    let (default_chords, default_roots) = get_progression("default", 4, 800);
    assert_eq!(nonsense_chords, default_chords);
    assert_eq!(nonsense_roots, default_roots);
    assert_eq!(default_chords.len(), 2);
    assert_eq!(default_roots, vec![40, 45]);
}

#[test]
fn progression_names_match_case_insensitively() {
    let (a, ra) = get_progression("BLUES", 1, 300);
    let (b, rb) = get_progression("blues", 1, 300);
    assert_eq!(a, b);
    assert_eq!(ra, rb);
}

#[test]
fn chord_spec_carries_its_tones() {
    let c = generate_chord_samples(7, ChordQuality::Dominant, ChordNumber::Seventh, 123);
    assert_eq!(c.root, 7);
    assert_eq!(c.samples, 123);
    let pcs: Vec<u8> = c.tones.iter().map(|n| n.pitch_class).collect();
    assert_eq!(pcs, vec![7, 11, 2, 5]);
}

#[test]
fn transpose_down_octave_clamps_at_the_floor() {
    assert_eq!(transpose_down_octave(60), 48);
    assert_eq!(transpose_down_octave(12), 0);
    assert_eq!(transpose_down_octave(11), 11);
    assert_eq!(transpose_down_octave(0), 0);
}

#[test]
fn bass_line_walks_the_chord_roots_an_octave_down() {
    let roots: Vec<u8> = vec![36, 41];
    let bass = get_bass_line("pop", &roots, 100, 350, 120, 7);
    assert_eq!(
        bass,
        vec![
            BassSegment { note: Some(24), samples: 100 },
            BassSegment { note: Some(29), samples: 100 },
            BassSegment { note: Some(24), samples: 100 },
            BassSegment { note: Some(29), samples: 50 },
        ]
    );
}

#[test]
fn bass_line_total_always_matches_the_request() {
    let roots: Vec<u8> = vec![40, 45, 47];
    for total in [0usize, 1, 99, 100, 101, 1234] {
        let bass = get_bass_line("jazz", &roots, 100, total, 100, 1);
        let sum: usize = bass.iter().map(|s| s.samples).sum();
        assert_eq!(sum, total);
    }
}

#[test]
fn bass_line_degenerates_to_silence() {
    let empty: Vec<u8> = vec![];
    let bass = get_bass_line("pop", &empty, 100, 500, 120, 7);
    assert_eq!(bass, vec![BassSegment { note: None, samples: 500 }]);
    let roots: Vec<u8> = vec![36];
    let bass2 = get_bass_line("pop", &roots, 0, 500, 120, 7);
    assert_eq!(bass2, vec![BassSegment { note: None, samples: 500 }]);
}

#[test]
fn bass_line_never_transposes_below_the_floor() {
    let roots: Vec<u8> = vec![5, 13];
    let bass = get_bass_line("pop", &roots, 10, 40, 120, 7);
    assert_eq!(bass[0].note, Some(5));
    assert_eq!(bass[1].note, Some(1));
}
