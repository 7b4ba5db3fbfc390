use bitbeats::player::{MusicControl, PlayerState, SinkAction};

const RATE: u64 = 44100;

#[test]
fn a_loaded_session_starts_paused_at_zero() {
    let st = PlayerState::load(10 * RATE, 42);
    assert!(st.should_continue());
    assert!(!st.playing);
    assert_eq!(st.played_at_pause, 0);
    assert_eq!(st.total_samples, 10 * RATE);
    assert_eq!(st.seed, 42);
}

#[test]
fn pause_resume_accounting_is_sample_exact() {
    // Resume for 2.0 simulated seconds, pause, resume for 1.0 more second,
    // pause: exactly 3.0 seconds' worth of samples are banked, however many
    // cycles it took.
    let mut st = PlayerState::load(10 * RATE, 1);
    let (a, _) = st.on_command(MusicControl::Resume, 0);
    assert_eq!(a, SinkAction::PlaySink);
    let (a, _) = st.on_command(MusicControl::Pause, 2 * RATE);
    assert_eq!(a, SinkAction::PauseSink);
    assert_eq!(st.played_at_pause, 2 * RATE);
    let (a, _) = st.on_command(MusicControl::Resume, 0);
    assert_eq!(a, SinkAction::PlaySink);
    let (a, _) = st.on_command(MusicControl::Pause, RATE);
    assert_eq!(a, SinkAction::PauseSink);
    assert_eq!(st.played_at_pause, 3 * RATE);
    let (snap, _) = st.service_tick(0);
    assert_eq!(snap.current_samples, 3 * RATE);
}

#[test]
fn progress_is_monotone_and_clamped_within_a_session() {
    let mut st = PlayerState::load(2 * RATE, 7);
    st.on_command(MusicControl::Resume, 0);
    let mut last = 0;
    for elapsed in [0u64, 1000, 40000, 88200, 100000, 500000] {
        let mut probe = st;
        let (snap, _) = probe.service_tick(elapsed);
        assert!(snap.current_samples >= last);
        assert!(snap.current_samples <= snap.total_samples);
        last = snap.current_samples;
    }
}

#[test]
fn the_session_auto_pauses_at_the_end() {
    let mut st = PlayerState::load(RATE, 7);
    st.on_command(MusicControl::Resume, 0);
    let (snap, action) = st.service_tick(RATE + 5);
    assert_eq!(snap.current_samples, RATE);
    assert_eq!(action, SinkAction::PauseSink);
    assert!(!st.playing);
    assert_eq!(st.played_at_pause, RATE);
    // Later ticks keep reporting the end without pausing again.
    let (snap2, action2) = st.service_tick(99999);
    assert_eq!(snap2.current_samples, RATE);
    assert_eq!(action2, SinkAction::Stay);
}

#[test]
fn rewind_resets_progress_and_keeps_the_total() {
    let mut st = PlayerState::load(5 * RATE, 9);
    st.on_command(MusicControl::Resume, 0);
    st.on_command(MusicControl::Pause, 3 * RATE);
    let (action, snapshot) = st.on_command(MusicControl::Rewind, 0);
    assert_eq!(action, SinkAction::RestartSink);
    let snap = snapshot.unwrap();
    assert_eq!(snap.current_samples, 0);
    assert_eq!(snap.total_samples, 5 * RATE);
    assert_eq!(snap.actual_seed, 9);
    assert!(st.playing);
    assert_eq!(st.played_at_pause, 0);
    let (next, _) = st.service_tick(0);
    assert_eq!(next.current_samples, 0);
    assert_eq!(next.total_samples, 5 * RATE);
}

#[test]
fn resume_is_ignored_while_playing_or_empty() {
    let mut st = PlayerState::load(0, 3);
    let (a, _) = st.on_command(MusicControl::Resume, 0);
    assert_eq!(a, SinkAction::Stay);
    assert!(!st.playing);
    let mut st2 = PlayerState::load(RATE, 3);
    st2.on_command(MusicControl::Resume, 0);
    let (a2, _) = st2.on_command(MusicControl::Resume, 0);
    assert_eq!(a2, SinkAction::Stay);
    assert!(st2.playing);
}

#[test]
fn pause_while_paused_banks_nothing() {
    let mut st = PlayerState::load(RATE, 3);
    let (a, _) = st.on_command(MusicControl::Pause, 12345);
    assert_eq!(a, SinkAction::PauseSink);
    assert_eq!(st.played_at_pause, 0);
}

#[test]
fn terminate_ends_the_session_for_good() {
    let mut st = PlayerState::load(RATE, 3);
    let (a, _) = st.on_command(MusicControl::Terminate, 0);
    assert_eq!(a, SinkAction::StopSink);
    assert!(!st.should_continue());
    let before = st;
    let (a2, snap) = st.on_command(MusicControl::Rewind, 0);
    assert_eq!(a2, SinkAction::Stay);
    assert!(snap.is_none());
    assert_eq!(st, before);
}

#[test]
fn snapshots_report_the_seed_of_the_session() {
    let mut st = PlayerState::load(RATE, 0xDEAD);
    let (snap, _) = st.service_tick(0);
    assert_eq!(snap.actual_seed, 0xDEAD);
}
