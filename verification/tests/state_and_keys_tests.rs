use bitbeats::keys::{handle_key, Key};
use bitbeats::nav::{get_input_graph, next_focus, Direction, InputId};
use bitbeats::state::{AppState, InputMode, UserAction};

#[test]
fn default_state_matches_the_original_form() {
    let st = AppState::default();
    assert_eq!(st.scale.as_str(), "C");
    assert_eq!(st.style.as_str(), "Pop");
    assert_eq!(st.bpm.as_str(), "120");
    assert_eq!(st.length.as_str(), "5 min");
    assert_eq!(st.seed.as_str(), "");
    assert_eq!(st.input_mode, InputMode::Navigation);
    assert_eq!(st.scales.len(), 12);
    assert_eq!(st.styles.len(), 10);
    assert_eq!(st.lengths.len(), 5);
    assert!(!st.is_playing);
    assert!(!st.show_help);
}

#[test]
fn the_input_graph_has_every_edge_once() {
    let g = get_input_graph();
    assert_eq!(g.len(), 41);
    assert!(g.contains(&(InputId::Rewind, Direction::Right, InputId::PlayPause)));
    assert!(g.contains(&(InputId::SongLoader, Direction::Up, InputId::GenerateRandom)));
    for (from, dir, to) in &g {
        assert_eq!(next_focus(*from, *dir), *to);
    }
}

#[test]
fn focus_stays_put_without_an_edge() {
    assert_eq!(next_focus(InputId::Rewind, Direction::Up), InputId::Rewind);
    assert_eq!(next_focus(InputId::PlayPause, Direction::Up), InputId::PlayPause);
}

#[test]
fn focus_moves_along_the_graph() {
    assert_eq!(next_focus(InputId::Rewind, Direction::Right), InputId::PlayPause);
    assert_eq!(next_focus(InputId::PlayPause, Direction::Down), InputId::Scale);
    assert_eq!(next_focus(InputId::Seed, Direction::Down), InputId::Generate);
}

#[test]
fn update_progress_clamps_and_resets() {
    let mut st = AppState::default();
    st.is_playing = true;
    st.update_progress(1000, 2000);
    assert_eq!((st.current_samples, st.total_samples), (1000, 2000));
    st.update_progress(5000, 2000);
    assert_eq!(st.current_samples, 2000);
    st.update_progress(0, 0);
    assert_eq!((st.current_samples, st.total_samples), (0, 0));
}

#[test]
fn update_progress_while_paused_only_takes_a_new_song() {
    let mut st = AppState::default();
    st.is_playing = true;
    st.update_progress(500, 2000);
    st.is_playing = false;
    st.update_progress(900, 2000);
    assert_eq!(st.current_samples, 500);
    st.update_progress(900, 3000);
    assert_eq!((st.current_samples, st.total_samples), (0, 3000));
}

#[test]
fn elapsed_seconds_round_down() {
    let mut st = AppState::default();
    st.is_playing = true;
    st.update_progress(44100 * 3 + 44099, 44100 * 100);
    assert_eq!(st.elapsed_seconds(), 3);
    assert_eq!(st.duration_seconds(), 100);
}

#[test]
fn global_shortcuts_act_in_navigation_mode() {
    let mut st = AppState::default();
    let mut focus = InputId::PlayPause;
    let mut backup = None;
    assert_eq!(handle_key(&mut st, &mut focus, &mut backup, Key::Char('q')), UserAction::Quit);
    assert_eq!(
        handle_key(&mut st, &mut focus, &mut backup, Key::Char('p')),
        UserAction::TogglePlayback
    );
    assert_eq!(
        handle_key(&mut st, &mut focus, &mut backup, Key::Char('r')),
        UserAction::RewindSong
    );
    assert_eq!(
        handle_key(&mut st, &mut focus, &mut backup, Key::Char('f')),
        UserAction::FastForwardSong
    );
}

#[test]
fn help_screen_swallows_everything_but_help_and_quit() {
    let mut st = AppState::default();
    st.show_help = true;
    let mut focus = InputId::PlayPause;
    let mut backup = None;
    assert_eq!(handle_key(&mut st, &mut focus, &mut backup, Key::Char('p')), UserAction::NoOp);
    assert_eq!(handle_key(&mut st, &mut focus, &mut backup, Key::Enter), UserAction::NoOp);
    assert_eq!(
        handle_key(&mut st, &mut focus, &mut backup, Key::Char('?')),
        UserAction::ToggleHelp
    );
    assert_eq!(handle_key(&mut st, &mut focus, &mut backup, Key::Char('q')), UserAction::Quit);
}

#[test]
fn arrows_and_vi_keys_navigate() {
    let mut st = AppState::default();
    let mut focus = InputId::PlayPause;
    let mut backup = None;
    assert_eq!(handle_key(&mut st, &mut focus, &mut backup, Key::Down), UserAction::Navigate);
    assert_eq!(focus, InputId::Scale);
    assert_eq!(
        handle_key(&mut st, &mut focus, &mut backup, Key::Char('j')),
        UserAction::Navigate
    );
    assert_eq!(focus, InputId::Bpm);
}

#[test]
fn enter_opens_the_scale_popup_with_the_first_row() {
    let mut st = AppState::default();
    let mut focus = InputId::Scale;
    let mut backup = None;
    assert_eq!(handle_key(&mut st, &mut focus, &mut backup, Key::Enter), UserAction::OpenPopup);
    assert_eq!(st.input_mode, InputMode::ScalePopup);
    assert_eq!(st.popup_selected, Some(0));
}

#[test]
fn the_popup_cycles_with_wraparound_and_selects() {
    let mut st = AppState::default();
    let mut focus = InputId::Scale;
    let mut backup = None;
    handle_key(&mut st, &mut focus, &mut backup, Key::Enter);
    assert_eq!(
        handle_key(&mut st, &mut focus, &mut backup, Key::Up),
        UserAction::CyclePopupOption
    );
    assert_eq!(st.popup_selected, Some(11));
    handle_key(&mut st, &mut focus, &mut backup, Key::Down);
    assert_eq!(st.popup_selected, Some(0));
    handle_key(&mut st, &mut focus, &mut backup, Key::Down);
    handle_key(&mut st, &mut focus, &mut backup, Key::Down);
    assert_eq!(st.popup_selected, Some(2));
    assert_eq!(
        handle_key(&mut st, &mut focus, &mut backup, Key::Enter),
        UserAction::SelectPopupItem
    );
    assert_eq!(st.scale.as_str(), "D");
    assert_eq!(st.input_mode, InputMode::Navigation);
}

#[test]
fn bpm_editing_caps_at_three_digits_and_esc_restores() {
    let mut st = AppState::default();
    st.bpm = String::from("12");
    let mut focus = InputId::Bpm;
    let mut backup = None;
    handle_key(&mut st, &mut focus, &mut backup, Key::Enter);
    assert_eq!(st.input_mode, InputMode::Editing);
    assert_eq!(
        handle_key(&mut st, &mut focus, &mut backup, Key::Char('3')),
        UserAction::UpdateInput
    );
    assert_eq!(st.bpm.as_str(), "123");
    assert_eq!(handle_key(&mut st, &mut focus, &mut backup, Key::Char('4')), UserAction::NoOp);
    assert_eq!(st.bpm.as_str(), "123");
    assert_eq!(handle_key(&mut st, &mut focus, &mut backup, Key::Char('x')), UserAction::NoOp);
    assert_eq!(
        handle_key(&mut st, &mut focus, &mut backup, Key::Esc),
        UserAction::SwitchToNavigation
    );
    assert_eq!(st.bpm.as_str(), "12");
    assert_eq!(st.input_mode, InputMode::Navigation);
}

#[test]
fn seed_editing_appends_digits_and_backspaces() {
    let mut st = AppState::default();
    let mut focus = InputId::Seed;
    let mut backup = None;
    handle_key(&mut st, &mut focus, &mut backup, Key::Enter);
    handle_key(&mut st, &mut focus, &mut backup, Key::Char('4'));
    handle_key(&mut st, &mut focus, &mut backup, Key::Char('2'));
    assert_eq!(st.seed.as_str(), "42");
    handle_key(&mut st, &mut focus, &mut backup, Key::Backspace);
    assert_eq!(st.seed.as_str(), "4");
    assert_eq!(
        handle_key(&mut st, &mut focus, &mut backup, Key::Enter),
        UserAction::SwitchToNavigation
    );
    assert_eq!(st.seed.as_str(), "4");
}

#[test]
fn the_loader_accepts_identifier_characters_only() {
    let mut st = AppState::default();
    let mut focus = InputId::SongLoader;
    let mut backup = None;
    handle_key(&mut st, &mut focus, &mut backup, Key::Enter);
    assert_eq!(st.input_mode, InputMode::SongLoaderEditing);
    for c in "C-Jazz-120".chars() {
        handle_key(&mut st, &mut focus, &mut backup, Key::Char(c));
    }
    assert_eq!(handle_key(&mut st, &mut focus, &mut backup, Key::Char('!')), UserAction::NoOp);
    // The global shortcuts keep acting even while editing, so a 'p' toggles
    // playback instead of landing in the field.
    assert_eq!(
        handle_key(&mut st, &mut focus, &mut backup, Key::Char('p')),
        UserAction::TogglePlayback
    );
    assert_eq!(st.song_loader_input.as_str(), "C-Jazz-120");
    assert_eq!(
        handle_key(&mut st, &mut focus, &mut backup, Key::Enter),
        UserAction::AttemptLoadSong
    );
    assert_eq!(st.input_mode, InputMode::Navigation);
}

#[test]
fn the_error_popup_returns_to_editing_the_identifier() {
    let mut st = AppState::default();
    st.show_song_id_error(String::from("bad id"));
    assert_eq!(st.input_mode, InputMode::SongIdErrorPopup);
    let mut focus = InputId::SongLoader;
    let mut backup = None;
    assert_eq!(handle_key(&mut st, &mut focus, &mut backup, Key::Char('z')), UserAction::NoOp);
    assert_eq!(
        handle_key(&mut st, &mut focus, &mut backup, Key::Esc),
        UserAction::CloseSongIdErrorPopup
    );
    assert_eq!(st.input_mode, InputMode::SongLoaderEditing);
    assert!(st.song_id_error.is_none());
}

#[test]
fn transport_state_helpers() {
    let mut st = AppState::default();
    assert!(st.is_paused());
    st.set_playing_state(true);
    assert!(!st.is_paused());
    st.reset_current_song_progress();
    assert_eq!(st.current_samples, 0);
    assert!(st.is_playing);
    st.toggle_help();
    assert!(st.show_help);
    st.set_current_song_id_display(Some(String::from("C-Pop-120-5-1")));
    assert_eq!(st.current_song_id_display.as_deref(), Some("C-Pop-120-5-1"));
    st.reset_progress_for_new_song();
    assert_eq!((st.current_samples, st.total_samples), (0, 0));
    st.clear_song_loader_input();
    assert!(st.song_loader_input.is_empty());
}
