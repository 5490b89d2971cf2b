//! The format of the recording and where it goes.

use vstd::prelude::*;

verus! {

/// Samples per second of the recording.
pub const SAMPLE_RATE: u32 = 48000;

/// Bits of one sample.
pub const BITS_PER_SAMPLE: u16 = 32;

/// Channels of the recording.
pub const CHANNELS: u16 = 1;

/// How one sample is encoded.
#[derive(Clone, Copy, Debug, PartialEq, Eq, Structural)]
pub enum SampleFormat {
    /// As a floating-point number.
    Float,
    /// As a whole number.
    Int,
}

/// The format of a recording and the path of its file.
#[derive(Clone, Copy, Debug)]
pub struct Spec<'a> {
    pub channels: u16,
    pub sample_rate: u32,
    pub bits_per_sample: u16,
    pub sample_format: SampleFormat,
    pub file_path: &'a str,
}

impl<'a> Spec<'a> {
    /// The format of every recording, one channel of 32-bit floating-point
    /// samples at 48000 samples per second, for the file at `file_path`.
    pub fn new(file_path: &'a str) -> (spec: Spec<'a>)
        ensures
            spec.channels == 1,
            spec.sample_rate == 48000,
            spec.bits_per_sample == 32,
            spec.sample_format == SampleFormat::Float,
            spec.file_path == file_path,
    {
        Spec {
            channels: CHANNELS,
            sample_rate: SAMPLE_RATE,
            bits_per_sample: BITS_PER_SAMPLE,
            sample_format: SampleFormat::Float,
            file_path,
        }
    }
}

} // verus!
