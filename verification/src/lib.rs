//! Wind speeds made audible: each speed read from a log becomes a short
//! tone, and the tones, laid end to end, make a single-channel recording.
//!
//! The library reads the speed from a line of the log, models the pieces of
//! a recording (a constant tone, a linear fade, each with the time it
//! lasts), counts the samples that a span of time holds at a sample rate,
//! and decides the order in which the samples of a series of pieces go to
//! the sink.
//!
//! Real numbers (frequencies, amplitudes, measured speeds) are held by
//! their IEEE 754 encodings. The library classifies and carries them; the
//! caller evaluates the waveform on them and owns the sink.

pub mod duration;
pub mod binary64;
pub mod error;
pub mod piece;
pub mod render;
pub mod input;
pub mod line;
pub mod pattern;
pub mod unit;
pub mod speed;
pub mod format;

pub use crate::binary64::Binary64;
pub use crate::duration::Duration;
pub use crate::error::AudioError;
pub use crate::format::{SampleFormat, Spec};
pub use crate::input::InputError;
pub use crate::line::measure;
pub use crate::piece::{Fade, Piece, Static, TemporalPiece};
pub use crate::render::{make, Action, Outcome, Phase, Renderer};
pub use crate::speed::{get, InvalidInput, Speed};
pub use crate::unit::MeasurementUnit;
