//! Measurement units, as the user names them.

use vstd::prelude::*;

use crate::input::InputError;
use crate::pattern::{find_pattern, regex_found, UNITS_REGEX_STR};

verus! {

/// The name of a measurement unit, such as `m/s`: a text in which the form
/// of a unit was found.
#[derive(Clone, Debug, PartialEq, Eq)]
pub struct MeasurementUnit(pub String);

impl MeasurementUnit {
    /// What a text and the outcome of the search for the unit form in it make:
    /// no input for an empty text, the unit where the form was found, and
    /// else an invalid unit that keeps the text.
    pub open spec fn decide(value: String, found: Option<bool>) -> Result<
        MeasurementUnit,
        InputError,
    > {
        if value@.len() == 0 {
            Err(InputError::NoInput)
        } else if found == Some(true) {
            Ok(MeasurementUnit(value))
        } else {
            Err(InputError::InvalidUnit(value))
        }
    }

    /// Makes the unit of `value` once the text has been searched, with `found`
    /// the outcome of the search.
    pub fn from_search(value: String, found: Option<bool>) -> (made: Result<
        MeasurementUnit,
        InputError,
    >)
        ensures
            made == Self::decide(value, found),
    {
        if value.as_str().is_empty() {
            return Err(InputError::NoInput);
        }
        match found {
            Some(true) => Ok(MeasurementUnit(value)),
            _ => Err(InputError::InvalidUnit(value)),
        }
    }
}

impl TryFrom<String> for MeasurementUnit {
    type Error = InputError;

    /// Takes `value` as a unit if it is not empty and the unit form is found in
    /// it.
    fn try_from(value: String) -> (made: Result<MeasurementUnit, InputError>)
        ensures
            made == Self::decide(value, regex_found(UNITS_REGEX_STR@, value@)),
    {
        let found = find_pattern(UNITS_REGEX_STR, value.as_str());
        Self::from_search(value, found)
    }
}

impl vstd::std_specs::convert::TryFromSpecImpl<String> for MeasurementUnit {
    open spec fn obeys_try_from_spec() -> bool {
        true
    }

    open spec fn try_from_spec(value: String) -> Result<MeasurementUnit, InputError> {
        Self::decide(value, regex_found(UNITS_REGEX_STR@, value@))
    }
}

} // verus!
