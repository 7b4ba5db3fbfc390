use bitbeats::id::{
    format_song_id, parse_song_id_to_app_state, parse_u32, parse_u64, u64_to_string,
};
use bitbeats::state::{AppState, InputMode};

#[test]
fn parse_u64_plain_values() {
    assert_eq!(parse_u64("0"), Some(0));
    assert_eq!(parse_u64("482913"), Some(482913));
    assert_eq!(parse_u64("18446744073709551615"), Some(u64::MAX));
}

#[test]
fn parse_u64_accepts_leading_zeros() {
    assert_eq!(parse_u64("007"), Some(7));
    assert_eq!(parse_u64("000"), Some(0));
}

#[test]
fn parse_u64_rejects_empty_and_non_digits() {
    assert_eq!(parse_u64(""), None);
    assert_eq!(parse_u64("12a"), None);
    assert_eq!(parse_u64("-3"), None);
    assert_eq!(parse_u64(" 5"), None);
}

#[test]
fn parse_u64_rejects_overflow() {
    assert_eq!(parse_u64("18446744073709551616"), None);
    assert_eq!(parse_u64("99999999999999999999999"), None);
}

#[test]
fn parse_u32_rejects_values_above_u32() {
    assert_eq!(parse_u32("4294967295"), Some(u32::MAX));
    assert_eq!(parse_u32("4294967296"), None);
}

#[test]
fn u64_to_string_round_trips() {
    for n in [0u64, 1, 9, 10, 120, 482913, u64::MAX] {
        let s = u64_to_string(n);
        assert_eq!(parse_u64(s.as_str()), Some(n));
    }
    assert_eq!(u64_to_string(0).as_str(), "0");
    assert_eq!(u64_to_string(482913).as_str(), "482913");
}

#[test]
fn parse_valid_song_id() {
    let st = parse_song_id_to_app_state("C-Pop-120-5-482913").unwrap();
    assert_eq!(st.scale.as_str(), "C");
    assert_eq!(st.style.as_str(), "Pop");
    assert_eq!(st.bpm.as_str(), "120");
    assert_eq!(st.length.as_str(), "5 min");
    assert_eq!(st.seed.as_str(), "482913");
    assert_eq!(st.input_mode, InputMode::Navigation);
    assert!(!st.is_playing);
    assert_eq!(st.total_samples, 0);
}

#[test]
fn parse_song_id_allows_empty_bpm_and_seed() {
    let st = parse_song_id_to_app_state("D#-jazz--2-").unwrap();
    assert_eq!(st.scale.as_str(), "D#");
    assert_eq!(st.style.as_str(), "jazz");
    assert_eq!(st.bpm.as_str(), "");
    assert_eq!(st.length.as_str(), "2 min");
    assert_eq!(st.seed.as_str(), "");
}

#[test]
fn parse_song_id_wrong_field_count() {
    let e = parse_song_id_to_app_state("C-Pop-120-5").unwrap_err();
    assert!(e.contains("Song ID"));
    assert!(e.contains("five fields"));
    let e2 = parse_song_id_to_app_state("C-Pop-120-5-1-extra").unwrap_err();
    assert!(e2.contains("five fields"));
}

#[test]
fn parse_song_id_bad_bpm() {
    let e = parse_song_id_to_app_state("C-Pop-12x-5-1").unwrap_err();
    assert!(e.contains("BPM"));
}

#[test]
fn parse_song_id_bad_length() {
    let e = parse_song_id_to_app_state("C-Pop-120--1").unwrap_err();
    assert!(e.contains("Length"));
    let e2 = parse_song_id_to_app_state("C-Pop-120-5min-1").unwrap_err();
    assert!(e2.contains("Length"));
}

#[test]
fn parse_song_id_bad_seed() {
    let e = parse_song_id_to_app_state("C-Pop-120-5-seed").unwrap_err();
    assert!(e.contains("Seed"));
}

#[test]
fn parse_song_id_checks_fields_in_order() {
    // A bad BPM is reported before the equally bad length.
    let e = parse_song_id_to_app_state("C-Pop-x-y-z").unwrap_err();
    assert!(e.contains("BPM"));
}

#[test]
fn format_then_parse_reproduces_the_parameters() {
    let mut st = AppState::default();
    st.scale = String::from("G#");
    st.style = String::from("Blues");
    st.bpm = String::from("133");
    st.length = String::from("2 min");
    let id = format_song_id(&st, 987654321);
    assert_eq!(id.as_str(), "G#-Blues-133-2-987654321");
    let back = parse_song_id_to_app_state(id.as_str()).unwrap();
    assert_eq!(back.scale.as_str(), "G#");
    assert_eq!(back.style.as_str(), "Blues");
    assert_eq!(back.bpm.as_str(), "133");
    assert_eq!(back.length.as_str(), "2 min");
    assert_eq!(back.seed.as_str(), "987654321");
    // Formatting the parsed state with the same seed gives the identifier
    // again.
    let id2 = format_song_id(&back, 987654321);
    assert_eq!(id2.as_str(), id.as_str());
}
