//! The building blocks of a recording: a tone of constant amplitude, a tone
//! that fades linearly, and either of them paired with the time it lasts.

use vstd::prelude::*;

use crate::binary64::{is_positive, Binary64};
use crate::duration::Duration;
use crate::error::AudioError;

verus! {

/// A tone that keeps one amplitude for as long as it lasts.
///
/// Its frequency, in hertz, is greater than zero. Its amplitude is taken as
/// given: beyond `1.0` the tone distorts, which is the caller's choice.
#[derive(Clone, Copy, Debug, PartialEq, Eq, Structural)]
pub struct Static {
    frequency: Binary64,
    amplitude: Binary64,
}

impl Static {
    #[verifier::type_invariant]
    spec fn valid(self) -> bool {
        is_positive(self.frequency@)
    }

    pub closed spec fn spec_frequency(self) -> Binary64 {
        self.frequency
    }

    pub closed spec fn spec_amplitude(self) -> Binary64 {
        self.amplitude
    }

    /// A constant tone, or `InvalidParameter` where `frequency` is not greater
    /// than zero.
    pub fn new(frequency: Binary64, amplitude: Binary64) -> (made: Result<Static, AudioError>)
        ensures
            is_positive(frequency@) ==> made is Ok && made->Ok_0.spec_frequency() == frequency
                && made->Ok_0.spec_amplitude() == amplitude,
            !is_positive(frequency@) ==> made == Err::<Static, AudioError>(
                AudioError::InvalidParameter,
            ),
    {
        if frequency.is_positive() {
            Ok(Static { frequency, amplitude })
        } else {
            Err(AudioError::InvalidParameter)
        }
    }

    /// The frequency in hertz, which is greater than zero.
    #[verifier::when_used_as_spec(spec_frequency)]
    pub fn frequency(self) -> (f: Binary64)
        ensures
            f == self.spec_frequency(),
            is_positive(f@),
    {
        proof {
            use_type_invariant(&self);
        }
        self.frequency
    }

    /// The amplitude.
    #[verifier::when_used_as_spec(spec_amplitude)]
    pub fn amplitude(self) -> (a: Binary64)
        ensures
            a == self.spec_amplitude(),
    {
        self.amplitude
    }
}

/// A tone whose amplitude changes linearly, sample by sample, between zero
/// and an end amplitude.
///
/// With `reverse` unset the tone fades out, from the end amplitude to zero;
/// with `reverse` set it fades in, from zero to the end amplitude. Its
/// frequency, in hertz, is greater than zero.
#[derive(Clone, Copy, Debug, PartialEq, Eq, Structural)]
pub struct Fade {
    end_amplitude: Binary64,
    frequency: Binary64,
    reverse: bool,
}

impl Fade {
    #[verifier::type_invariant]
    spec fn valid(self) -> bool {
        is_positive(self.frequency@)
    }

    pub closed spec fn spec_frequency(self) -> Binary64 {
        self.frequency
    }

    pub closed spec fn spec_end_amplitude(self) -> Binary64 {
        self.end_amplitude
    }

    pub closed spec fn spec_reverse(self) -> bool {
        self.reverse
    }

    /// A fading tone, or `InvalidParameter` where `frequency` is not greater
    /// than zero.
    pub fn new(frequency: Binary64, end_amplitude: Binary64, reverse: bool) -> (made: Result<
        Fade,
        AudioError,
    >)
        ensures
            is_positive(frequency@) ==> made is Ok && made->Ok_0.spec_frequency() == frequency
                && made->Ok_0.spec_end_amplitude() == end_amplitude
                && made->Ok_0.spec_reverse() == reverse,
            !is_positive(frequency@) ==> made == Err::<Fade, AudioError>(
                AudioError::InvalidParameter,
            ),
    {
        if frequency.is_positive() {
            Ok(Fade { end_amplitude, frequency, reverse })
        } else {
            Err(AudioError::InvalidParameter)
        }
    }

    /// The frequency in hertz, which is greater than zero.
    #[verifier::when_used_as_spec(spec_frequency)]
    pub fn frequency(self) -> (f: Binary64)
        ensures
            f == self.spec_frequency(),
            is_positive(f@),
    {
        proof {
            use_type_invariant(&self);
        }
        self.frequency
    }

    /// The amplitude at the loud end of the fade.
    #[verifier::when_used_as_spec(spec_end_amplitude)]
    pub fn end_amplitude(self) -> (a: Binary64)
        ensures
            a == self.spec_end_amplitude(),
    {
        self.end_amplitude
    }

    /// Whether the tone fades in rather than out.
    #[verifier::when_used_as_spec(spec_reverse)]
    pub fn reverse(self) -> (r: bool)
        ensures
            r == self.spec_reverse(),
    {
        self.reverse
    }
}

/// The shape of one segment of the recording.
#[derive(Clone, Copy, Debug, PartialEq, Eq, Structural)]
pub enum Piece {
    Static(Static),
    Fadeout(Fade),
}

impl Piece {
    /// The segment's envelope divides by the sample count: true of the fades
    /// only.
    pub open spec fn spec_divides_by_count(self) -> bool {
        self is Fadeout
    }

    /// Whether rendering the segment divides by its sample count.
    #[verifier::when_used_as_spec(spec_divides_by_count)]
    pub fn divides_by_count(self) -> (divides: bool)
        ensures
            divides == self.spec_divides_by_count(),
    {
        match self {
            Piece::Static(_) => false,
            Piece::Fadeout(_) => true,
        }
    }
}

/// A segment and the time it lasts: the unit that the engine renders.
#[derive(Clone, Copy, Debug, PartialEq, Eq, Structural)]
pub struct TemporalPiece(pub Piece, pub Duration);

} // verus!
