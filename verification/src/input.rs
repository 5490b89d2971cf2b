//! What can be wrong with a measurement unit given by the user.

use vstd::prelude::*;
use vstd::string::StringExecFns;

verus! {

/// Why a text was refused as a measurement unit.
#[derive(Debug, PartialEq, Eq)]
pub enum InputError {
    /// The text is not of the form of a unit; the text is kept.
    InvalidUnit(String),
    /// The text is empty.
    NoInput,
}

impl InputError {
    /// The text of the message for this error.
    pub open spec fn message_of(self) -> Seq<char> {
        match self {
            InputError::InvalidUnit(unit) => "the following "@ + unit@ + " is not a valid unit"@,
            InputError::NoInput => "no measurement unit is provided"@,
        }
    }

    /// The message for this error, for the user to read.
    pub fn message(&self) -> (text: String)
        ensures
            text@ == self.message_of(),
    {
        match self {
            InputError::InvalidUnit(unit) => String::from_str("the following ").concat(
                unit.as_str(),
            ).concat(" is not a valid unit"),
            InputError::NoInput => String::from_str("no measurement unit is provided"),
        }
    }
}

} // verus!
