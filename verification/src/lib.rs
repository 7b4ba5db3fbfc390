//! Procedural chiptune composition and playback control.
//!
//! The crate turns a small parameter set (musical key, style, tempo, duration,
//! random seed) into a symbolic score: a melody as timed notes, a chord
//! progression, and a bass line, all on a 44100 Hz sample grid.  A fixed-point
//! mixer combines the three voices and normalizes the peak.  A playback state
//! machine tracks elapsed samples across pause/resume/rewind with sample
//! accuracy.  Waveform synthesis and the audio device live outside the crate;
//! everything here works on plain integers, strings and the crate's own types.

pub mod pitch;
pub mod rng;
pub mod theory;
pub mod bass;
pub mod mix;
pub mod style;
pub mod melody;
pub mod progression;
pub mod player;
pub mod nav;
pub mod state;
pub mod id;
pub mod compose;
pub mod keys;
