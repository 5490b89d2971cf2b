//! The failures of the synthesis engine.

use vstd::prelude::*;

verus! {

/// Why a piece was refused or a rendering stopped.
#[derive(Clone, Copy, Debug, PartialEq, Eq, Structural)]
pub enum AudioError {
    /// A segment was given a frequency that is not greater than zero.
    InvalidParameter,
    /// A fade holds no sample, so its envelope would divide by zero.
    ArithmeticHazard,
    /// The sink failed to open, to take a sample or to finalize.
    Sink,
}

} // verus!
