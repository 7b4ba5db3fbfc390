//! The playback control state machine.
//!
//! A session owns one loaded song and tracks elapsed playback position
//! across pause/resume/rewind with sample accuracy.  All wall-clock
//! measurement happens outside: whoever runs the control loop measures how
//! many samples' worth of time passed since the last resume and hands that
//! number in.  Every transition and every progress snapshot is a pure
//! function of the state and that elapsed count, and the loop around it
//! only performs the returned audio-sink action.

use vstd::prelude::*;

verus! {

/// Transport commands, processed strictly in arrival order.
#[derive(Clone, Copy, Debug, PartialEq, Eq, Structural)]
pub enum MusicControl {
    /// Pause current playback.
    Pause,
    /// Resume current playback.
    Resume,
    /// Stop playback and end the session.
    Terminate,
    /// Restart the current song from the beginning.
    Rewind,
}

/// A progress snapshot pushed to the observer.
#[derive(Clone, Copy, Debug, PartialEq, Eq, Structural)]
pub struct MusicProgress {
    /// Samples played so far, clamped to the song length.
    pub current_samples: u64,
    /// Total samples of the current song.
    pub total_samples: u64,
    /// The seed the current song was generated from.
    pub actual_seed: u64,
}

/// What the control loop must do to the audio sink after a transition.
#[derive(Clone, Copy, Debug, PartialEq, Eq, Structural)]
pub enum SinkAction {
    /// Nothing to do.
    Stay,
    /// Pause the sink.
    PauseSink,
    /// Start or continue playing.
    PlaySink,
    /// Re-arm the same buffer from position zero and play.
    RestartSink,
    /// Stop the sink for good.
    StopSink,
}

/// The playback session state.
///
/// `playing` says whether a resume instant is armed (the sink is running);
/// `played_at_pause` accumulates whole stretches of playback that ended in
/// a pause.  The displayed position is `played_at_pause` plus, while
/// playing, the elapsed samples since the last resume, clamped to
/// `total_samples`.
#[derive(Clone, Copy, Debug, PartialEq, Eq, Structural)]
pub struct PlayerState {
    pub total_samples: u64,
    pub played_at_pause: u64,
    pub playing: bool,
    pub terminated: bool,
    pub seed: u64,
}

/// Saturating addition on u64, as a spec value.
pub open spec fn sat_add(a: int, b: int) -> int {
    if a + b > u64::MAX {
        u64::MAX as int
    } else {
        a + b
    }
}

/// The displayed sample position of a state after `elapsed` samples of
/// wall-clock time since the last resume: the accumulated pause count,
/// advanced only while playing, and clamped to the song length.
pub open spec fn spec_current_samples(st: PlayerState, elapsed: u64) -> int {
    let raw = if st.playing {
        sat_add(st.played_at_pause as int, elapsed as int)
    } else {
        st.played_at_pause as int
    };
    if raw > st.total_samples {
        st.total_samples as int
    } else {
        raw
    }
}

impl PlayerState {
    /// Create the session for a freshly loaded song: counters at zero, not
    /// yet playing, not terminated.
    pub fn load(total_samples: u64, seed: u64) -> (r: PlayerState)
        ensures
            r == (PlayerState {
                total_samples,
                played_at_pause: 0,
                playing: false,
                terminated: false,
                seed,
            }),
    {
        PlayerState { total_samples, played_at_pause: 0, playing: false, terminated: false, seed }
    }

    /// Whether the control loop should keep running.
    pub fn should_continue(&self) -> (r: bool)
        ensures
            r == !self.terminated,
    {
        !self.terminated
    }

    /// Process one transport command.
    ///
    /// `elapsed` is the number of samples' worth of wall-clock time since
    /// the last resume; it only matters for `Pause`, which banks it.  The
    /// returned action is what the caller must do to the audio sink, and
    /// the returned snapshot, if any, must be pushed to the observer (a
    /// rewind announces its fresh zero position).  After `Terminate` no
    /// command changes the state again.
    pub fn on_command(&mut self, cmd: MusicControl, elapsed: u64) -> (r: (
        SinkAction,
        Option<MusicProgress>,
    ))
        ensures
            old(self).terminated ==> *final(self) == *old(self) && r == (
                SinkAction::Stay,
                Option::<MusicProgress>::None,
            ),
            !old(self).terminated ==> match cmd {
                MusicControl::Pause => {
                    &&& *final(self) == (PlayerState {
                        played_at_pause: if old(self).playing {
                            sat_add(old(self).played_at_pause as int, elapsed as int) as u64
                        } else {
                            old(self).played_at_pause
                        },
                        playing: false,
                        ..*old(self)
                    })
                    &&& r == (SinkAction::PauseSink, Option::<MusicProgress>::None)
                },
                MusicControl::Resume => {
                    &&& *final(self) == (PlayerState {
                        playing: old(self).playing || old(self).total_samples > 0,
                        ..*old(self)
                    })
                    &&& r == (
                        if !old(self).playing && old(self).total_samples > 0 {
                            SinkAction::PlaySink
                        } else {
                            SinkAction::Stay
                        },
                        Option::<MusicProgress>::None,
                    )
                },
                MusicControl::Rewind => {
                    &&& *final(self) == (PlayerState {
                        played_at_pause: 0,
                        playing: true,
                        ..*old(self)
                    })
                    &&& r == (
                        SinkAction::RestartSink,
                        Some(
                            MusicProgress {
                                current_samples: 0,
                                total_samples: old(self).total_samples,
                                actual_seed: old(self).seed,
                            },
                        ),
                    )
                },
                MusicControl::Terminate => {
                    &&& *final(self) == (PlayerState {
                        playing: false,
                        terminated: true,
                        ..*old(self)
                    })
                    &&& r == (SinkAction::StopSink, Option::<MusicProgress>::None)
                },
            },
    {
        if self.terminated {
            return (SinkAction::Stay, None);
        }
        match cmd {
            MusicControl::Pause => {
                if self.playing {
                    self.played_at_pause = self.played_at_pause.saturating_add(elapsed);
                }
                self.playing = false;
                (SinkAction::PauseSink, None)
            },
            MusicControl::Resume => {
                if !self.playing && self.total_samples > 0 {
                    self.playing = true;
                    (SinkAction::PlaySink, None)
                } else {
                    (SinkAction::Stay, None)
                }
            },
            MusicControl::Rewind => {
                self.played_at_pause = 0;
                self.playing = true;
                (
                    SinkAction::RestartSink,
                    Some(
                        MusicProgress {
                            current_samples: 0,
                            total_samples: self.total_samples,
                            actual_seed: self.seed,
                        },
                    ),
                )
            },
            MusicControl::Terminate => {
                self.playing = false;
                self.terminated = true;
                (SinkAction::StopSink, None)
            },
        }
    }

    /// Compute the progress snapshot for this control-loop iteration and
    /// auto-pause once the displayed position reaches the song's end.
    ///
    /// The snapshot reports the clamped position; when that position has
    /// reached the total while playing, the session banks the full length,
    /// stops advancing, and asks the caller to pause the sink.
    pub fn service_tick(&mut self, elapsed: u64) -> (r: (MusicProgress, SinkAction))
        ensures
            r.0.current_samples == spec_current_samples(*old(self), elapsed),
            r.0.total_samples == old(self).total_samples,
            r.0.actual_seed == old(self).seed,
            final(self).total_samples == old(self).total_samples,
            final(self).seed == old(self).seed,
            final(self).terminated == old(self).terminated,
            spec_current_samples(*old(self), elapsed) >= old(self).total_samples && old(
                self,
            ).playing ==> *final(self) == (PlayerState {
                played_at_pause: old(self).total_samples,
                playing: false,
                ..*old(self)
            }) && r.1 == SinkAction::PauseSink,
            !(spec_current_samples(*old(self), elapsed) >= old(self).total_samples && old(
                self,
            ).playing) ==> *final(self) == *old(self) && r.1 == SinkAction::Stay,
            r.0.current_samples <= old(self).total_samples,
    {
        let raw = if self.playing {
            self.played_at_pause.saturating_add(elapsed)
        } else {
            self.played_at_pause
        };
        let current = if raw > self.total_samples {
            self.total_samples
        } else {
            raw
        };
        let snapshot = MusicProgress {
            current_samples: current,
            total_samples: self.total_samples,
            actual_seed: self.seed,
        };
        if current >= self.total_samples && self.playing {
            self.played_at_pause = self.total_samples;
            self.playing = false;
            (snapshot, SinkAction::PauseSink)
        } else {
            (snapshot, SinkAction::Stay)
        }
    }
}

/// Progress is monotone in elapsed time: while a session plays on, a later
/// reading never reports fewer samples, and no reading ever exceeds the
/// song's total.
pub proof fn lemma_progress_monotonic(st: PlayerState, e1: u64, e2: u64)
    requires
        e1 <= e2,
    ensures
        spec_current_samples(st, e1) <= spec_current_samples(st, e2),
        spec_current_samples(st, e2) <= st.total_samples,
{
}

/// Pausing preserves the displayed position: the elapsed stretch is banked
/// into the pause accumulator, so the snapshot after the pause (with no new
/// elapsed time) shows what the snapshot before it showed.
pub proof fn lemma_pause_preserves_progress(st: PlayerState, elapsed: u64)
    requires
        !st.terminated,
        st.playing,
    ensures
        ({
            let paused = PlayerState {
                played_at_pause: sat_add(st.played_at_pause as int, elapsed as int) as u64,
                playing: false,
                ..st
            };
            spec_current_samples(paused, 0) == spec_current_samples(st, elapsed)
        }),
{
}

/// Across one control-loop iteration, progress never falls back: whatever
/// state a tick leaves behind, a later reading (at a later elapsed count,
/// as wall-clock time only grows between resumes) reports at least what the
/// tick reported.
pub proof fn lemma_tick_monotonic(st: PlayerState, e1: u64, e2: u64)
    requires
        e1 <= e2,
    ensures
        ({
            let after = if spec_current_samples(st, e1) >= st.total_samples && st.playing {
                PlayerState { played_at_pause: st.total_samples, playing: false, ..st }
            } else {
                st
            };
            spec_current_samples(after, e2) >= spec_current_samples(st, e1)
        }),
{
}

/// Resuming preserves the displayed position: immediately after a resume
/// (zero elapsed) the snapshot shows what the paused session showed.
pub proof fn lemma_resume_preserves_progress(st: PlayerState)
    requires
        !st.playing,
    ensures
        spec_current_samples(PlayerState { playing: true, ..st }, 0) == spec_current_samples(
            st,
            0,
        ),
{
}

} // verus!
