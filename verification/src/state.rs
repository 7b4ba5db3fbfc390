//! The front end's view of the application: the parameter fields being
//! edited, the interaction mode, and the sample-accurate progress of the
//! song being played.  Everything here is plain data; rendering it is the
//! front end's business.

use vstd::prelude::*;

use crate::melody::SAMPLE_RATE;

verus! {

/// How key presses are currently interpreted.
#[derive(Clone, Copy, Debug, PartialEq, Eq, Structural)]
pub enum InputMode {
    Navigation,
    Editing,
    ScalePopup,
    StylePopup,
    LengthPopup,
    SongLoaderEditing,
    SongIdErrorPopup,
}

/// Every action the front end can ask the application to perform.
#[derive(Clone, Copy, Debug, PartialEq, Eq, Structural)]
pub enum UserAction {
    Quit,
    TogglePlayback,
    UpdateInput,
    Navigate,
    SwitchToEditing,
    SwitchToNavigation,
    OpenPopup,
    CyclePopupOption,
    SelectPopupItem,
    GenerateMusic,
    GenerateRandomMusic,
    NoOp,
    AttemptLoadSong,
    CloseSongIdErrorPopup,
    RewindSong,
    FastForwardSong,
    ToggleHelp,
}

/// The names offered in the scale picker, in order.
pub open spec fn spec_scale_names() -> Seq<Seq<char>> {
    seq![
        "C"@,
        "C#"@,
        "D"@,
        "D#"@,
        "E"@,
        "F"@,
        "F#"@,
        "G"@,
        "G#"@,
        "A"@,
        "A#"@,
        "B"@,
    ]
}

/// The names offered in the style picker, in order.
pub open spec fn spec_style_names() -> Seq<Seq<char>> {
    seq![
        "Pop"@,
        "Rock"@,
        "Jazz"@,
        "Blues"@,
        "Electronic"@,
        "Ambient"@,
        "Classical"@,
        "Folk"@,
        "Metal"@,
        "Reggae"@,
    ]
}

/// The lengths offered in the length picker, in order.
pub open spec fn spec_length_names() -> Seq<Seq<char>> {
    seq!["1 min"@, "2 min"@, "3 min"@, "5 min"@, "10 min"@]
}

/// The state the front end renders and edits.
#[derive(Clone, Debug)]
pub struct AppState {
    /// Selected scale name ("C" through "B").
    pub scale: String,
    /// Selected style name, free text.
    pub style: String,
    /// Beats per minute as typed, possibly empty.
    pub bpm: String,
    /// Selected length, "<n> min".
    pub length: String,
    /// Seed as typed, possibly empty.
    pub seed: String,
    pub input_mode: InputMode,
    /// The highlighted row of an open picker popup.
    pub popup_selected: Option<usize>,
    pub is_random: bool,
    pub scales: Vec<String>,
    pub styles: Vec<String>,
    pub lengths: Vec<String>,
    pub is_playing: bool,
    /// Samples of the current song played so far, as last reported.
    pub current_samples: u64,
    /// Total samples of the current song; zero when none is loaded.
    pub total_samples: u64,
    pub song_loader_input: String,
    pub song_id_error: Option<String>,
    pub current_song_id_display: Option<String>,
    pub show_help: bool,
}

/// The field values `AppState::default` promises, shared by everything
/// that builds on a fresh state.
pub open spec fn app_state_default(st: AppState) -> bool {
    &&& st.scale@ == "C"@
    &&& st.style@ == "Pop"@
    &&& st.bpm@ == "120"@
    &&& st.length@ == "5 min"@
    &&& st.seed@ == Seq::<char>::empty()
    &&& st.input_mode == InputMode::Navigation
    &&& st.popup_selected == Option::<usize>::None
    &&& st.is_random == false
    &&& st.scales@.map_values(|s: String| s@) == spec_scale_names()
    &&& st.styles@.map_values(|s: String| s@) == spec_style_names()
    &&& st.lengths@.map_values(|s: String| s@) == spec_length_names()
    &&& st.is_playing == false
    &&& st.current_samples == 0
    &&& st.total_samples == 0
    &&& st.song_loader_input@ == Seq::<char>::empty()
    &&& st.song_id_error == Option::<String>::None
    &&& st.current_song_id_display == Option::<String>::None
    &&& st.show_help == false
}

/// The fields of a state that are not part of a song identifier all hold
/// their default values: no popup, no progress, no error, nothing playing.
pub open spec fn app_state_rest_default(st: AppState) -> bool {
    &&& st.input_mode == InputMode::Navigation
    &&& st.popup_selected == Option::<usize>::None
    &&& st.is_random == false
    &&& st.scales@.map_values(|s: String| s@) == spec_scale_names()
    &&& st.styles@.map_values(|s: String| s@) == spec_style_names()
    &&& st.lengths@.map_values(|s: String| s@) == spec_length_names()
    &&& st.is_playing == false
    &&& st.current_samples == 0
    &&& st.total_samples == 0
    &&& st.song_loader_input@ == Seq::<char>::empty()
    &&& st.song_id_error == Option::<String>::None
    &&& st.current_song_id_display == Option::<String>::None
    &&& st.show_help == false
}

impl Default for AppState {
    /// A fresh state: C major pop at 120 bpm for five minutes, no seed, no
    /// song loaded, navigation mode.
    fn default() -> (r: AppState)
        ensures
            app_state_default(r),
    {
        let mut scales: Vec<String> = Vec::new();
        scales.push("C".to_owned());
        scales.push("C#".to_owned());
        scales.push("D".to_owned());
        scales.push("D#".to_owned());
        scales.push("E".to_owned());
        scales.push("F".to_owned());
        scales.push("F#".to_owned());
        scales.push("G".to_owned());
        scales.push("G#".to_owned());
        scales.push("A".to_owned());
        scales.push("A#".to_owned());
        scales.push("B".to_owned());
        let mut styles: Vec<String> = Vec::new();
        styles.push("Pop".to_owned());
        styles.push("Rock".to_owned());
        styles.push("Jazz".to_owned());
        styles.push("Blues".to_owned());
        styles.push("Electronic".to_owned());
        styles.push("Ambient".to_owned());
        styles.push("Classical".to_owned());
        styles.push("Folk".to_owned());
        styles.push("Metal".to_owned());
        styles.push("Reggae".to_owned());
        let mut lengths: Vec<String> = Vec::new();
        lengths.push("1 min".to_owned());
        lengths.push("2 min".to_owned());
        lengths.push("3 min".to_owned());
        lengths.push("5 min".to_owned());
        lengths.push("10 min".to_owned());
        proof {
            assert(scales@.map_values(|s: String| s@) =~= spec_scale_names());
            assert(styles@.map_values(|s: String| s@) =~= spec_style_names());
            assert(lengths@.map_values(|s: String| s@) =~= spec_length_names());
        }
        AppState {
            scale: "C".to_owned(),
            style: "Pop".to_owned(),
            bpm: "120".to_owned(),
            length: "5 min".to_owned(),
            seed: String::new(),
            input_mode: InputMode::Navigation,
            popup_selected: None,
            is_random: false,
            scales,
            styles,
            lengths,
            is_playing: false,
            current_samples: 0,
            total_samples: 0,
            song_loader_input: String::new(),
            song_id_error: None,
            current_song_id_display: None,
            show_help: false,
        }
    }
}

impl AppState {
    /// Record a progress report.
    ///
    /// While paused, only a changed total (a newly loaded song) is taken,
    /// and its progress starts at zero; the visible position is left alone
    /// otherwise.  While playing, the position is taken as reported,
    /// clamped to the total.
    pub fn update_progress(&mut self, current_samples: u64, total_samples: u64)
        ensures
            !old(self).is_playing && total_samples > 0 ==> *final(self) == (AppState {
                total_samples,
                current_samples: if old(self).total_samples != total_samples {
                    0u64
                } else {
                    old(self).current_samples
                },
                ..*old(self)
            }),
            old(self).is_playing || total_samples == 0 ==> *final(self) == (AppState {
                total_samples,
                current_samples: if total_samples == 0 {
                    0u64
                } else if current_samples > total_samples {
                    total_samples
                } else {
                    current_samples
                },
                ..*old(self)
            }),
    {
        if !self.is_playing && total_samples > 0 {
            if self.total_samples != total_samples {
                self.total_samples = total_samples;
                self.current_samples = 0;
            }
            return ;
        }
        if total_samples == 0 {
            self.current_samples = 0;
            self.total_samples = 0;
        } else {
            self.current_samples = if current_samples > total_samples {
                total_samples
            } else {
                current_samples
            };
            self.total_samples = total_samples;
        }
    }

    /// Seconds (rounded down) of the current position, for display.
    pub fn elapsed_seconds(&self) -> (r: u64)
        ensures
            r == self.current_samples as int / SAMPLE_RATE as int,
    {
        self.current_samples / SAMPLE_RATE
    }

    /// Seconds (rounded down) of the whole song, for display.
    pub fn duration_seconds(&self) -> (r: u64)
        ensures
            r == self.total_samples as int / SAMPLE_RATE as int,
    {
        self.total_samples / SAMPLE_RATE
    }

    pub fn set_current_song_id_display(&mut self, id_display: Option<String>)
        ensures
            *final(self) == (AppState { current_song_id_display: id_display, ..*old(self) }),
    {
        self.current_song_id_display = id_display;
    }

    pub fn set_playing_state(&mut self, is_playing: bool)
        ensures
            *final(self) == (AppState { is_playing, ..*old(self) }),
    {
        self.is_playing = is_playing;
    }

    pub fn toggle_help(&mut self)
        ensures
            *final(self) == (AppState { show_help: !old(self).show_help, ..*old(self) }),
    {
        self.show_help = !self.show_help;
    }

    pub fn is_paused(&self) -> (r: bool)
        ensures
            r == !self.is_playing,
    {
        !self.is_playing
    }

    pub fn clear_song_loader_input(&mut self)
        ensures
            final(self).song_loader_input@ == Seq::<char>::empty(),
            *final(self) == (AppState {
                song_loader_input: final(self).song_loader_input,
                ..*old(self)
            }),
    {
        self.song_loader_input = String::new();
    }

    /// Show a song-identifier error: store the message and switch to the
    /// error popup.
    pub fn show_song_id_error(&mut self, error_message: String)
        ensures
            *final(self) == (AppState {
                song_id_error: Some(error_message),
                input_mode: InputMode::SongIdErrorPopup,
                ..*old(self)
            }),
    {
        self.song_id_error = Some(error_message);
        self.input_mode = InputMode::SongIdErrorPopup;
    }

    /// Rewind display: position back to zero, playback shown as running;
    /// the song and its total length stay.
    pub fn reset_current_song_progress(&mut self)
        ensures
            *final(self) == (AppState { current_samples: 0u64, is_playing: true, ..*old(self) }),
    {
        self.current_samples = 0;
        self.is_playing = true;
    }

    /// Clear all progress for a new song.
    pub fn reset_progress_for_new_song(&mut self)
        ensures
            *final(self) == (AppState { current_samples: 0u64, total_samples: 0u64, ..*old(self) }),
    {
        self.current_samples = 0;
        self.total_samples = 0;
    }
}

} // verus!
