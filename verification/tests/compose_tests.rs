use bitbeats::compose::{compose_song, resolve_song_parameters, scale_name_to_root};
use bitbeats::state::AppState;
use bitbeats::style::{style_of, Style};

fn state(scale: &str, style: &str, bpm: &str, length: &str, seed: &str) -> AppState {
    let mut st = AppState::default();
    st.scale = String::from(scale);
    st.style = String::from(style);
    st.bpm = String::from(bpm);
    st.length = String::from(length);
    st.seed = String::from(seed);
    st
}

#[test]
fn scale_names_resolve_to_their_pitch_classes() {
    assert_eq!(scale_name_to_root("C"), 0);
    assert_eq!(scale_name_to_root("C#"), 1);
    assert_eq!(scale_name_to_root("A"), 9);
    assert_eq!(scale_name_to_root("B"), 11);
}

#[test]
fn unknown_or_lowercase_scale_names_default_to_c() {
    assert_eq!(scale_name_to_root("H"), 0);
    assert_eq!(scale_name_to_root("c"), 0);
    assert_eq!(scale_name_to_root(""), 0);
}

#[test]
fn styles_resolve_case_insensitively() {
    assert_eq!(style_of("JaZz"), Style::Jazz);
    assert_eq!(style_of("blues"), Style::Blues);
    assert_eq!(style_of("POP"), Style::Pop);
    assert_eq!(style_of("Reggae"), Style::Default);
    assert_eq!(style_of(""), Style::Default);
}

#[test]
fn explicit_parameters_are_taken_verbatim() {
    let st = state("G", "Blues", "95", "2 min", "31337");
    let p = resolve_song_parameters(&st);
    assert_eq!(p.scale_root, 7);
    assert_eq!(p.style, Style::Blues);
    assert_eq!(p.bpm, 95);
    assert_eq!(p.minutes, 2);
    assert_eq!(p.seed, 31337);
}

#[test]
fn missing_bpm_is_drawn_from_the_seeded_stream() {
    let st = state("C", "Pop", "", "1 min", "7");
    let p1 = resolve_song_parameters(&st);
    let p2 = resolve_song_parameters(&st);
    assert!(p1.bpm >= 80 && p1.bpm <= 160);
    assert_eq!(p1.bpm, p2.bpm);
    let zero = state("C", "Pop", "0", "1 min", "7");
    let p3 = resolve_song_parameters(&zero);
    assert!(p3.bpm >= 80 && p3.bpm <= 160);
}

#[test]
fn missing_length_defaults_to_five_minutes() {
    let st = state("C", "Pop", "120", "forever", "7");
    let p = resolve_song_parameters(&st);
    assert_eq!(p.minutes, 5);
}

#[test]
fn a_missing_seed_is_drawn_fresh_and_reported() {
    let st = state("C", "Pop", "120", "1 min", "");
    let p1 = resolve_song_parameters(&st);
    let p2 = resolve_song_parameters(&st);
    // Two draws of a fresh 64-bit seed virtually never collide; what
    // matters is that the drawn seed is the one reported.
    assert_ne!(p1.seed, p2.seed);
}

#[test]
fn composition_is_deterministic_for_an_explicit_seed() {
    let st = state("E", "jazz", "132", "1 min", "123456789");
    let a = compose_song(&st);
    let b = compose_song(&st);
    assert_eq!(a, b);
    assert!(!a.melody.is_empty());
    assert_eq!(a.params.seed, 123456789);
    assert_eq!(a.params.bpm, 132);
    assert_eq!(a.params.scale_root, 4);
}

#[test]
fn the_bass_covers_exactly_the_melody_length() {
    let st = state("C", "blues", "120", "1 min", "42");
    let score = compose_song(&st);
    let melody_total: u64 = score.melody.iter().map(|t| t.samples).sum();
    assert_eq!(score.total_samples, melody_total);
    let bass_total: usize = score.bass.iter().map(|s| s.samples).sum();
    assert_eq!(bass_total as u64, score.total_samples);
}

#[test]
fn the_progression_follows_the_style() {
    let st = state("C", "pop", "100", "1 min", "8");
    let score = compose_song(&st);
    assert_eq!(score.chords.len(), 4);
    assert_eq!(score.chord_roots.len(), 4);
    assert_eq!(score.chord_roots[0], 36);
    for c in &score.chords {
        assert_eq!(c.samples, score.samples_per_chord);
    }
    let st2 = state("C", "something else", "100", "1 min", "8");
    let score2 = compose_song(&st2);
    assert_eq!(score2.chords.len(), 2);
}

#[test]
fn different_seeds_compose_different_songs() {
    let a = compose_song(&state("C", "pop", "120", "1 min", "1"));
    let b = compose_song(&state("C", "pop", "120", "1 min", "2"));
    assert_ne!(a.melody, b.melody);
}

#[test]
fn a_zero_minute_song_is_empty() {
    let st = state("C", "pop", "120", "0 min", "5");
    let score = compose_song(&st);
    assert_eq!(score.total_samples, 0);
    assert!(score.melody.is_empty());
}

#[test]
fn the_default_style_plays_one_quarter_note_per_beat() {
    // One minute at 120 bpm in the default style is exactly 120 quarter
    // notes.
    let st = state("C", "Classical", "120", "1 min", "3");
    let score = compose_song(&st);
    assert_eq!(score.melody.len(), 120);
    assert!(score.melody.iter().all(|t| t.centibeats == 100));
}

#[test]
fn the_chord_grid_spans_two_to_four_beats() {
    for seed in ["1", "2", "3", "4", "5", "6"] {
        let st = state("C", "pop", "120", "1 min", seed);
        let score = compose_song(&st);
        let spq = 2646000 / 120;
        assert!(score.samples_per_chord % spq == 0);
        let beats = score.samples_per_chord / spq;
        assert!((2..=4).contains(&beats));
    }
}
