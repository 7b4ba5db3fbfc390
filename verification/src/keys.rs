//! Key handling: the decision core of the front end.
//!
//! The front end polls the terminal and translates each key press into a
//! `Key`; everything that follows — help-screen handling, the global
//! shortcuts, navigation, text editing with its escape/restore backup, the
//! picker popups and the identifier-error popup — is decided here, as a
//! pure transition on the application state, the focus and the editing
//! backup, returning the action the application must perform.

use vstd::prelude::*;

use crate::nav::{next_focus, spec_neighbor, Direction, InputId};
use crate::state::{AppState, InputMode, UserAction};

verus! {

/// One key press, as reported by the front end.
#[derive(Clone, Copy, Debug, PartialEq, Eq, Structural)]
pub enum Key {
    Char(char),
    Up,
    Down,
    Left,
    Right,
    Enter,
    Esc,
    Backspace,
    Other,
}

/// Relies on `String::push`: appends one character.
#[verifier::external_body]
fn push_char(s: &mut String, c: char)
    ensures
        final(s)@ == old(s)@.push(c),
{
    s.push(c);
}

/// Relies on `String::pop`: removes the last character, if any.
#[verifier::external_body]
fn pop_char(s: &mut String) -> (r: Option<char>)
    ensures
        old(s)@.len() == 0 ==> final(s)@ == old(s)@ && r is None,
        old(s)@.len() > 0 ==> final(s)@ == old(s)@.drop_last() && r == Some(old(s)@.last()),
{
    s.pop()
}

/// Relies on `char::is_alphanumeric`.  For ASCII characters that is exactly
/// the letters and digits; for other characters only that some boolean
/// comes back.
#[verifier::external_body]
fn is_alphanumeric_char(c: char) -> (r: bool)
    ensures
        (c as int) < 128 ==> r == is_ascii_alnum(c),
{
    c.is_alphanumeric()
}

/// An ASCII letter or digit.
pub open spec fn is_ascii_alnum(c: char) -> bool {
    ||| 48 <= c as int <= 57
    ||| 65 <= c as int <= 90
    ||| 97 <= c as int <= 122
}

/// A decimal digit, as a character test.
pub open spec fn spec_is_ascii_digit(c: char) -> bool {
    48 <= c as int <= 57
}

fn is_ascii_digit_char(c: char) -> (r: bool)
    ensures
        r == spec_is_ascii_digit(c),
{
    let u = c as u32;
    48 <= u && u <= 57
}

/// The length of the list a picker popup scrolls through.
pub open spec fn popup_list_len(st: AppState) -> int {
    match st.input_mode {
        InputMode::ScalePopup => st.scales@.len() as int,
        InputMode::StylePopup => st.styles@.len() as int,
        InputMode::LengthPopup => st.lengths@.len() as int,
        _ => 0,
    }
}

/// The global shortcut bound to a key, if any: these act in every mode.
pub open spec fn global_action(key: Key) -> Option<UserAction> {
    match key {
        Key::Char(c) => if c == '?' {
            Some(UserAction::ToggleHelp)
        } else if c == 'q' {
            Some(UserAction::Quit)
        } else if c == 'p' {
            Some(UserAction::TogglePlayback)
        } else if c == 'r' {
            Some(UserAction::RewindSong)
        } else if c == 'f' {
            Some(UserAction::FastForwardSong)
        } else {
            None
        },
        _ => None,
    }
}

/// The direction a navigation key stands for (arrows or vi keys).
pub open spec fn nav_direction(key: Key) -> Option<Direction> {
    match key {
        Key::Up => Some(Direction::Up),
        Key::Down => Some(Direction::Down),
        Key::Left => Some(Direction::Left),
        Key::Right => Some(Direction::Right),
        Key::Char(c) => if c == 'k' {
            Some(Direction::Up)
        } else if c == 'j' {
            Some(Direction::Down)
        } else if c == 'h' {
            Some(Direction::Left)
        } else if c == 'l' {
            Some(Direction::Right)
        } else {
            None
        },
        _ => None,
    }
}

fn global_action_exec(key: Key) -> (r: Option<UserAction>)
    ensures
        r == global_action(key),
{
    match key {
        Key::Char(c) => {
            if c == '?' {
                Some(UserAction::ToggleHelp)
            } else if c == 'q' {
                Some(UserAction::Quit)
            } else if c == 'p' {
                Some(UserAction::TogglePlayback)
            } else if c == 'r' {
                Some(UserAction::RewindSong)
            } else if c == 'f' {
                Some(UserAction::FastForwardSong)
            } else {
                None
            }
        },
        _ => None,
    }
}

fn nav_direction_exec(key: Key) -> (r: Option<Direction>)
    ensures
        r == nav_direction(key),
{
    match key {
        Key::Up => Some(Direction::Up),
        Key::Down => Some(Direction::Down),
        Key::Left => Some(Direction::Left),
        Key::Right => Some(Direction::Right),
        Key::Char(c) => {
            if c == 'k' {
                Some(Direction::Up)
            } else if c == 'j' {
                Some(Direction::Down)
            } else if c == 'h' {
                Some(Direction::Left)
            } else if c == 'l' {
                Some(Direction::Right)
            } else {
                None
            }
        },
        _ => None,
    }
}

/// Handle one key press.
///
/// While the help screen is shown, only `?` (close help) and `q` (quit) do
/// anything.  Otherwise the global shortcuts act in every mode; the
/// remaining keys are interpreted by the current input mode: navigation
/// moves the focus along the graph and `Enter` activates the focused
/// control; editing appends digits, deletes, confirms with `Enter` or
/// restores the backed-up value with `Esc`; the picker popups cycle and
/// select; the error popup returns to editing the identifier.
pub fn handle_key(
    st: &mut AppState,
    focus: &mut InputId,
    backup: &mut Option<String>,
    key: Key,
) -> (r: UserAction)
    ensures
        old(st).show_help ==> *final(st) == *old(st) && *final(focus) == *old(focus) && *final(backup) == *old(backup) && r == (if key == Key::Char('?') {
            UserAction::ToggleHelp
        } else if key == Key::Char('q') {
            UserAction::Quit
        } else {
            UserAction::NoOp
        }),
        !old(st).show_help && global_action(key) is Some ==> *final(st) == *old(st) && *final(focus) == *old(focus) && *final(backup) == *old(backup) && r == global_action(key).unwrap(),
        !old(st).show_help && global_action(key) is None && old(st).input_mode
            == InputMode::Navigation ==> match nav_direction(key) {
            Some(d) => {
                &&& *final(st) == *old(st)
                &&& *final(backup) == *old(backup)
                &&& *final(focus) == match spec_neighbor(*old(focus), d) {
                    Some(n) => n,
                    None => *old(focus),
                }
                &&& r == UserAction::Navigate
            },
            None => if key == Key::Enter {
                navigation_enter_post(*old(st), *final(st), *old(focus), *final(focus), *old(backup), *final(backup), r)
            } else {
                &&& *final(st) == *old(st)
                &&& *final(focus) == *old(focus)
                &&& *final(backup) == *old(backup)
                &&& r == UserAction::NoOp
            },
        },
        !old(st).show_help && global_action(key) is None && old(st).input_mode
            == InputMode::Editing ==> editing_post(
            *old(st),
            *final(st),
            *old(focus),
            *old(backup),
            *final(backup),
            key,
            r,
        ) && *final(focus) == *old(focus),
        !old(st).show_help && global_action(key) is None && (old(st).input_mode
            == InputMode::ScalePopup || old(st).input_mode == InputMode::StylePopup || old(st).input_mode == InputMode::LengthPopup) ==> popup_post(
            *old(st),
            *final(st),
            *old(focus),
            key,
            r,
        ) && *final(focus) == *old(focus) && *final(backup) == *old(backup),
        !old(st).show_help && global_action(key) is None && old(st).input_mode
            == InputMode::SongLoaderEditing ==> loader_post(
            *old(st),
            *final(st),
            *old(backup),
            *final(backup),
            key,
            r,
        ) && *final(focus) == *old(focus),
        !old(st).show_help && global_action(key) is None && old(st).input_mode
            == InputMode::SongIdErrorPopup ==> *final(focus) == *old(focus) && *final(backup)
            == *old(backup) && (if key == Key::Enter || key == Key::Esc {
            *final(st) == (AppState {
                input_mode: InputMode::SongLoaderEditing,
                song_id_error: Option::<String>::None,
                ..*old(st)
            }) && r == UserAction::CloseSongIdErrorPopup
        } else {
            *final(st) == *old(st) && r == UserAction::NoOp
        }),
{
    if st.show_help {
        return match key {
            Key::Char(c) => {
                if c == '?' {
                    UserAction::ToggleHelp
                } else if c == 'q' {
                    UserAction::Quit
                } else {
                    UserAction::NoOp
                }
            },
            _ => UserAction::NoOp,
        };
    }
    if let Some(action) = global_action_exec(key) {
        return action;
    }
    match st.input_mode {
        InputMode::Navigation => {
            if let Some(d) = nav_direction_exec(key) {
                *focus = next_focus(*focus, d);
                return UserAction::Navigate;
            }
            if key == Key::Enter {
                return navigation_enter(st, focus, backup);
            }
            UserAction::NoOp
        },
        InputMode::Editing => editing_key(st, focus, backup, key),
        InputMode::ScalePopup | InputMode::StylePopup | InputMode::LengthPopup => popup_key(
            st,
            focus,
            key,
        ),
        InputMode::SongLoaderEditing => loader_key(st, backup, key),
        InputMode::SongIdErrorPopup => {
            if key == Key::Enter || key == Key::Esc {
                st.input_mode = InputMode::SongLoaderEditing;
                st.song_id_error = None;
                UserAction::CloseSongIdErrorPopup
            } else {
                UserAction::NoOp
            }
        },
    }
}

/// What `Enter` does in navigation mode, by focused control: transport
/// controls act at once, the pickers open their popup with the first row
/// highlighted, and the text fields back up their value and enter editing.
pub open spec fn navigation_enter_post(
    st0: AppState,
    st1: AppState,
    focus0: InputId,
    focus1: InputId,
    backup0: Option<String>,
    backup1: Option<String>,
    r: UserAction,
) -> bool {
    &&& focus1 == focus0
    &&& match focus0 {
        InputId::Rewind => st1 == st0 && backup1 == backup0 && r == UserAction::RewindSong,
        InputId::PlayPause => st1 == st0 && backup1 == backup0 && r == UserAction::TogglePlayback,
        InputId::Skip => st1 == st0 && backup1 == backup0 && r == UserAction::FastForwardSong,
        InputId::Scale => st1 == (AppState {
            input_mode: InputMode::ScalePopup,
            popup_selected: Some(0usize),
            ..st0
        }) && backup1 == backup0 && r == UserAction::OpenPopup,
        InputId::Style => st1 == (AppState {
            input_mode: InputMode::StylePopup,
            popup_selected: Some(0usize),
            ..st0
        }) && backup1 == backup0 && r == UserAction::OpenPopup,
        InputId::Length => st1 == (AppState {
            input_mode: InputMode::LengthPopup,
            popup_selected: Some(0usize),
            ..st0
        }) && backup1 == backup0 && r == UserAction::OpenPopup,
        InputId::Bpm => st1 == (AppState { input_mode: InputMode::Editing, ..st0 }) && backup1
            is Some && backup1.unwrap()@ == st0.bpm@ && r == UserAction::SwitchToEditing,
        InputId::Seed => st1 == (AppState { input_mode: InputMode::Editing, ..st0 }) && backup1
            is Some && backup1.unwrap()@ == st0.seed@ && r == UserAction::SwitchToEditing,
        InputId::Generate => st1 == st0 && backup1 == backup0 && r == UserAction::GenerateMusic,
        InputId::GenerateRandom => st1 == st0 && backup1 == backup0 && r
            == UserAction::GenerateRandomMusic,
        InputId::SongLoader => st1 == (AppState {
            input_mode: InputMode::SongLoaderEditing,
            ..st0
        }) && backup1 is Some && backup1.unwrap()@ == st0.song_loader_input@ && r
            == UserAction::SwitchToEditing,
    }
}

fn navigation_enter(st: &mut AppState, focus: &mut InputId, backup: &mut Option<String>) -> (r:
    UserAction)
    ensures
        navigation_enter_post(
            *old(st),
            *final(st),
            *old(focus),
            *final(focus),
            *old(backup),
            *final(backup),
            r,
        ),
{
    match *focus {
        InputId::Rewind => UserAction::RewindSong,
        InputId::PlayPause => UserAction::TogglePlayback,
        InputId::Skip => UserAction::FastForwardSong,
        InputId::Scale => {
            st.input_mode = InputMode::ScalePopup;
            st.popup_selected = Some(0);
            UserAction::OpenPopup
        },
        InputId::Style => {
            st.input_mode = InputMode::StylePopup;
            st.popup_selected = Some(0);
            UserAction::OpenPopup
        },
        InputId::Length => {
            st.input_mode = InputMode::LengthPopup;
            st.popup_selected = Some(0);
            UserAction::OpenPopup
        },
        InputId::Bpm => {
            *backup = Some(st.bpm.clone());
            st.input_mode = InputMode::Editing;
            UserAction::SwitchToEditing
        },
        InputId::Seed => {
            *backup = Some(st.seed.clone());
            st.input_mode = InputMode::Editing;
            UserAction::SwitchToEditing
        },
        InputId::Generate => UserAction::GenerateMusic,
        InputId::GenerateRandom => UserAction::GenerateRandomMusic,
        InputId::SongLoader => {
            *backup = Some(st.song_loader_input.clone());
            st.input_mode = InputMode::SongLoaderEditing;
            UserAction::SwitchToEditing
        },
    }
}

/// What a key does in editing mode.  Only the BPM and seed fields are
/// edited here: `Enter` confirms and drops the backup, `Esc` restores the
/// backed-up value, a digit is appended (the BPM is capped at three
/// digits), `Backspace` deletes.  With any other focus nothing happens.
pub open spec fn editing_post(
    st0: AppState,
    st1: AppState,
    focus: InputId,
    backup0: Option<String>,
    backup1: Option<String>,
    key: Key,
    r: UserAction,
) -> bool {
    match focus {
        InputId::Bpm => match key {
            Key::Enter => st1 == (AppState { input_mode: InputMode::Navigation, ..st0 }) && backup1
                is None && r == UserAction::SwitchToNavigation,
            Key::Esc => {
                &&& st1.bpm@ == (if backup0 is Some {
                    backup0.unwrap()@
                } else {
                    st0.bpm@
                })
                &&& st1 == (AppState { input_mode: InputMode::Navigation, bpm: st1.bpm, ..st0 })
                &&& backup1 is None
                &&& r == UserAction::SwitchToNavigation
            },
            Key::Char(c) => if spec_is_ascii_digit(c) && st0.bpm@.len() < 3 {
                st1 == (AppState { bpm: st1.bpm, ..st0 }) && st1.bpm@ == st0.bpm@.push(c) && backup1
                    == backup0 && r == UserAction::UpdateInput
            } else {
                st1 == st0 && backup1 == backup0 && r == UserAction::NoOp
            },
            Key::Backspace => {
                &&& st1.bpm@ == (if st0.bpm@.len() == 0 {
                    st0.bpm@
                } else {
                    st0.bpm@.drop_last()
                })
                &&& st1 == (AppState { bpm: st1.bpm, ..st0 })
                &&& backup1 == backup0
                &&& r == UserAction::UpdateInput
            },
            _ => st1 == st0 && backup1 == backup0 && r == UserAction::NoOp,
        },
        InputId::Seed => match key {
            Key::Enter => st1 == (AppState { input_mode: InputMode::Navigation, ..st0 }) && backup1
                is None && r == UserAction::SwitchToNavigation,
            Key::Esc => {
                &&& st1.seed@ == (if backup0 is Some {
                    backup0.unwrap()@
                } else {
                    st0.seed@
                })
                &&& st1 == (AppState { input_mode: InputMode::Navigation, seed: st1.seed, ..st0 })
                &&& backup1 is None
                &&& r == UserAction::SwitchToNavigation
            },
            Key::Char(c) => if spec_is_ascii_digit(c) {
                st1 == (AppState { seed: st1.seed, ..st0 }) && st1.seed@ == st0.seed@.push(c)
                    && backup1 == backup0 && r == UserAction::UpdateInput
            } else {
                st1 == st0 && backup1 == backup0 && r == UserAction::NoOp
            },
            Key::Backspace => {
                &&& st1.seed@ == (if st0.seed@.len() == 0 {
                    st0.seed@
                } else {
                    st0.seed@.drop_last()
                })
                &&& st1 == (AppState { seed: st1.seed, ..st0 })
                &&& backup1 == backup0
                &&& r == UserAction::UpdateInput
            },
            _ => st1 == st0 && backup1 == backup0 && r == UserAction::NoOp,
        },
        _ => st1 == st0 && backup1 == backup0 && r == UserAction::NoOp,
    }
}

fn editing_key(st: &mut AppState, focus: &mut InputId, backup: &mut Option<String>, key: Key) -> (r:
    UserAction)
    ensures
        editing_post(*old(st), *final(st), *old(focus), *old(backup), *final(backup), key, r),
        *final(focus) == *old(focus),
{
    match *focus {
        InputId::Bpm => match key {
            Key::Enter => {
                *backup = None;
                st.input_mode = InputMode::Navigation;
                UserAction::SwitchToNavigation
            },
            Key::Esc => {
                if let Some(val) = backup.take() {
                    st.bpm = val;
                }
                st.input_mode = InputMode::Navigation;
                UserAction::SwitchToNavigation
            },
            Key::Char(c) => {
                if is_ascii_digit_char(c) && st.bpm.as_str().unicode_len() < 3 {
                    push_char(&mut st.bpm, c);
                    UserAction::UpdateInput
                } else {
                    UserAction::NoOp
                }
            },
            Key::Backspace => {
                let _ = pop_char(&mut st.bpm);
                UserAction::UpdateInput
            },
            _ => UserAction::NoOp,
        },
        InputId::Seed => match key {
            Key::Enter => {
                *backup = None;
                st.input_mode = InputMode::Navigation;
                UserAction::SwitchToNavigation
            },
            Key::Esc => {
                if let Some(val) = backup.take() {
                    st.seed = val;
                }
                st.input_mode = InputMode::Navigation;
                UserAction::SwitchToNavigation
            },
            Key::Char(c) => {
                if is_ascii_digit_char(c) {
                    push_char(&mut st.seed, c);
                    UserAction::UpdateInput
                } else {
                    UserAction::NoOp
                }
            },
            Key::Backspace => {
                let _ = pop_char(&mut st.seed);
                UserAction::UpdateInput
            },
            _ => UserAction::NoOp,
        },
        _ => UserAction::NoOp,
    }
}

/// What a key does in a picker popup: `Esc` closes it, the arrow keys cycle
/// through the list with wraparound, and `Enter` takes the highlighted name
/// into the field that opened the popup, then closes it.
pub open spec fn popup_post(st0: AppState, st1: AppState, focus: InputId, key: Key, r: UserAction) -> bool {
    let len = popup_list_len(st0);
    let cur = if st0.popup_selected is Some {
        st0.popup_selected.unwrap() as int
    } else {
        0
    };
    match key {
        Key::Esc => st1 == (AppState { input_mode: InputMode::Navigation, ..st0 }) && r
            == UserAction::SwitchToNavigation,
        Key::Up => {
            &&& if len > 0 {
                st1 == (AppState {
                    popup_selected: Some(
                        (if cur == 0 {
                            len - 1
                        } else {
                            cur - 1
                        }) as usize,
                    ),
                    ..st0
                })
            } else {
                st1 == st0
            }
            &&& r == UserAction::CyclePopupOption
        },
        Key::Down => {
            &&& if len > 0 {
                st1 == (AppState { popup_selected: Some(((cur + 1) % len) as usize), ..st0 })
            } else {
                st1 == st0
            }
            &&& r == UserAction::CyclePopupOption
        },
        Key::Enter => {
            &&& r == UserAction::SelectPopupItem
            &&& st1.input_mode == InputMode::Navigation
            &&& match st0.popup_selected {
                Some(idx) => match focus {
                    InputId::Scale => if idx < st0.scales@.len() {
                        st1 == (AppState {
                            input_mode: InputMode::Navigation,
                            scale: st1.scale,
                            ..st0
                        }) && st1.scale@ == st0.scales@[idx as int]@
                    } else {
                        st1 == (AppState { input_mode: InputMode::Navigation, ..st0 })
                    },
                    InputId::Style => if idx < st0.styles@.len() {
                        st1 == (AppState {
                            input_mode: InputMode::Navigation,
                            style: st1.style,
                            ..st0
                        }) && st1.style@ == st0.styles@[idx as int]@
                    } else {
                        st1 == (AppState { input_mode: InputMode::Navigation, ..st0 })
                    },
                    InputId::Length => if idx < st0.lengths@.len() {
                        st1 == (AppState {
                            input_mode: InputMode::Navigation,
                            length: st1.length,
                            ..st0
                        }) && st1.length@ == st0.lengths@[idx as int]@
                    } else {
                        st1 == (AppState { input_mode: InputMode::Navigation, ..st0 })
                    },
                    _ => st1 == (AppState { input_mode: InputMode::Navigation, ..st0 }),
                },
                None => st1 == (AppState { input_mode: InputMode::Navigation, ..st0 }),
            }
        },
        _ => st1 == st0 && r == UserAction::NoOp,
    }
}

fn popup_key(st: &mut AppState, focus: &mut InputId, key: Key) -> (r: UserAction)
    requires
        old(st).input_mode == InputMode::ScalePopup || old(st).input_mode == InputMode::StylePopup
            || old(st).input_mode == InputMode::LengthPopup,
    ensures
        popup_post(*old(st), *final(st), *old(focus), key, r),
        *final(focus) == *old(focus),
{
    match key {
        Key::Esc => {
            st.input_mode = InputMode::Navigation;
            UserAction::SwitchToNavigation
        },
        Key::Up => {
            let len = match st.input_mode {
                InputMode::ScalePopup => st.scales.len(),
                InputMode::StylePopup => st.styles.len(),
                InputMode::LengthPopup => st.lengths.len(),
                _ => 0,
            };
            if len > 0 {
                let cur = match st.popup_selected {
                    Some(i) => i,
                    None => 0,
                };
                let next = if cur == 0 {
                    len - 1
                } else {
                    cur - 1
                };
                st.popup_selected = Some(next);
            }
            UserAction::CyclePopupOption
        },
        Key::Down => {
            let len = match st.input_mode {
                InputMode::ScalePopup => st.scales.len(),
                InputMode::StylePopup => st.styles.len(),
                InputMode::LengthPopup => st.lengths.len(),
                _ => 0,
            };
            if len > 0 {
                let cur = match st.popup_selected {
                    Some(i) => i,
                    None => 0,
                };
                let cur_m = cur % len;
                let next = if cur_m + 1 == len {
                    0
                } else {
                    cur_m + 1
                };
                proof {
                    vstd::arithmetic::div_mod::lemma_add_mod_noop(cur as int, 1, len as int);
                    if len == 1 {
                        vstd::arithmetic::div_mod::lemma_mod_multiples_basic(
                            cur as int + 1,
                            1int,
                        );
                        assert((cur as int + 1) * 1int == cur as int + 1);
                        assert(next as int == (cur + 1) % (len as int));
                    } else {
                        vstd::arithmetic::div_mod::lemma_small_mod(1nat, len as nat);
                        if cur_m + 1 < len {
                            vstd::arithmetic::div_mod::lemma_small_mod(
                                (cur_m + 1) as nat,
                                len as nat,
                            );
                        } else {
                            vstd::arithmetic::div_mod::lemma_mod_self_0(len as int);
                        }
                        assert(next as int == (cur + 1) % (len as int));
                    }
                }
                st.popup_selected = Some(next);
            }
            UserAction::CyclePopupOption
        },
        Key::Enter => {
            if let Some(idx) = st.popup_selected {
                match *focus {
                    InputId::Scale => {
                        if idx < st.scales.len() {
                            st.scale = st.scales[idx].clone();
                        }
                    },
                    InputId::Style => {
                        if idx < st.styles.len() {
                            st.style = st.styles[idx].clone();
                        }
                    },
                    InputId::Length => {
                        if idx < st.lengths.len() {
                            st.length = st.lengths[idx].clone();
                        }
                    },
                    _ => {},
                }
            }
            st.input_mode = InputMode::Navigation;
            UserAction::SelectPopupItem
        },
        _ => UserAction::NoOp,
    }
}

/// What a key does while the song-identifier field is edited: `Enter`
/// confirms and asks the application to load the identifier, `Esc` restores
/// the backed-up text, alphanumeric characters and dashes are appended,
/// `Backspace` deletes.
pub open spec fn loader_post(
    st0: AppState,
    st1: AppState,
    backup0: Option<String>,
    backup1: Option<String>,
    key: Key,
    r: UserAction,
) -> bool {
    match key {
        Key::Enter => st1 == (AppState { input_mode: InputMode::Navigation, ..st0 }) && backup1
            is None && r == UserAction::AttemptLoadSong,
        Key::Esc => {
            &&& st1.song_loader_input@ == (if backup0 is Some {
                backup0.unwrap()@
            } else {
                st0.song_loader_input@
            })
            &&& st1 == (AppState {
                input_mode: InputMode::Navigation,
                song_loader_input: st1.song_loader_input,
                ..st0
            })
            &&& backup1 is None
            &&& r == UserAction::SwitchToNavigation
        },
        Key::Char(c) => {
            &&& backup1 == backup0
            &&& if (c as int) < 128 && !(is_ascii_alnum(c) || c == '-') {
                st1 == st0 && r == UserAction::NoOp
            } else {
                (st1 == (AppState { song_loader_input: st1.song_loader_input, ..st0 })
                    && st1.song_loader_input@ == st0.song_loader_input@.push(c) && r
                    == UserAction::UpdateInput) || (st1 == st0 && r == UserAction::NoOp)
            }
        },
        Key::Backspace => {
            &&& st1.song_loader_input@ == (if st0.song_loader_input@.len() == 0 {
                st0.song_loader_input@
            } else {
                st0.song_loader_input@.drop_last()
            })
            &&& st1 == (AppState { song_loader_input: st1.song_loader_input, ..st0 })
            &&& backup1 == backup0
            &&& r == UserAction::UpdateInput
        },
        _ => st1 == st0 && backup1 == backup0 && r == UserAction::NoOp,
    }
}

fn loader_key(st: &mut AppState, backup: &mut Option<String>, key: Key) -> (r: UserAction)
    ensures
        loader_post(*old(st), *final(st), *old(backup), *final(backup), key, r),
{
    match key {
        Key::Enter => {
            *backup = None;
            st.input_mode = InputMode::Navigation;
            UserAction::AttemptLoadSong
        },
        Key::Esc => {
            if let Some(val) = backup.take() {
                st.song_loader_input = val;
            }
            st.input_mode = InputMode::Navigation;
            UserAction::SwitchToNavigation
        },
        Key::Char(c) => {
            if is_alphanumeric_char(c) || c == '-' {
                push_char(&mut st.song_loader_input, c);
                UserAction::UpdateInput
            } else {
                UserAction::NoOp
            }
        },
        Key::Backspace => {
            let _ = pop_char(&mut st.song_loader_input);
            UserAction::UpdateInput
        },
        _ => UserAction::NoOp,
    }
}

} // verus!
