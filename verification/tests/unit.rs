use wind_tones::{InputError, MeasurementUnit};

#[test]
fn test_units_valid() {
    let input = "mil/s".to_string();
    let units: Result<MeasurementUnit, _> = input.clone().try_into();

    assert_eq!(Ok(MeasurementUnit(input)), units);
}

#[test]
fn unit_without_slash_is_invalid() {
    let input = "knots".to_string();
    let units = MeasurementUnit::try_from(input.clone());

    assert_eq!(Err(InputError::InvalidUnit(input)), units);
}

#[test]
fn unit_with_nothing_after_the_slash_is_invalid() {
    let units = MeasurementUnit::try_from("m/".to_string());

    assert_eq!(Err(InputError::InvalidUnit("m/".to_string())), units);
}

#[test]
fn unit_that_is_only_a_slash_is_invalid() {
    let units = MeasurementUnit::try_from("/".to_string());

    assert_eq!(Err(InputError::InvalidUnit("/".to_string())), units);
}

#[test]
fn empty_unit_is_no_input() {
    let units = MeasurementUnit::try_from(String::new());

    assert_eq!(Err(InputError::NoInput), units);
}

#[test]
fn unit_is_found_inside_a_longer_text() {
    let input = "in km/h, please".to_string();
    let units = MeasurementUnit::try_from(input.clone());

    assert_eq!(Ok(MeasurementUnit(input)), units);
}

#[test]
fn unit_may_hold_letters_of_any_script() {
    let input = "м/с".to_string();
    let units = MeasurementUnit::try_from(input.clone());

    assert_eq!(Ok(MeasurementUnit(input)), units);
}

#[test]
fn from_search_goes_by_the_outcome_given() {
    let text = "m/s".to_string();

    assert_eq!(
        Ok(MeasurementUnit(text.clone())),
        MeasurementUnit::from_search(text.clone(), Some(true))
    );
    assert_eq!(
        Err(InputError::InvalidUnit(text.clone())),
        MeasurementUnit::from_search(text.clone(), Some(false))
    );
    assert_eq!(
        Err(InputError::InvalidUnit(text.clone())),
        MeasurementUnit::from_search(text, None)
    );
    assert_eq!(
        Err(InputError::NoInput),
        MeasurementUnit::from_search(String::new(), Some(true))
    );
}

#[test]
fn input_error_messages() {
    assert_eq!(
        "the following knots is not a valid unit",
        InputError::InvalidUnit("knots".to_string()).message()
    );
    assert_eq!("no measurement unit is provided", InputError::NoInput.message());
}
