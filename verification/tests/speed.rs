use nom::bytes::streaming::tag;
use nom::character::streaming::{anychar, space0};
use nom::multi::many_till;
use nom::number::streaming::float;
use nom::sequence::{terminated, tuple};
use nom::IResult;
use wind_tones::speed::{follows, from_scan, read_number, scan_speed, ParseStop};
use wind_tones::{get, InvalidInput, Speed};

/// The search written with nom's combinators alone.
fn combined(input: &str, unit: &str) -> Result<u32, ParseStop> {
    let mut parser = many_till(anychar, terminated(float, tuple((space0, tag(unit)))));
    let parsed: IResult<&str, _> = parser(input);
    match parsed {
        Ok((_, (_, x))) => Ok(x.to_bits()),
        Err(nom::Err::Incomplete(_)) => Err(ParseStop::Incomplete),
        Err(nom::Err::Error(_)) => Err(ParseStop::Error),
        Err(nom::Err::Failure(_)) => Err(ParseStop::Failure),
    }
}

const INPUT_STR: &str =
    r"1             18.2°C 40.7% 4.04          m/s           15.06.2023\11:06:11";
const INPUT_STR_ONLY: &str = r"69 m/s";

#[test]
fn test_input_valid() {
    let unit = "m/s";
    let result = get(INPUT_STR, unit);

    assert_eq!(Ok(Speed(4.04f32.to_bits())), result.map(|(_, val)| val));
}

#[test]
fn test_input_valid_comma() {
    let unit = "m/s";
    let result = get(INPUT_STR, unit);

    assert_eq!(Ok(Speed(4.04f32.to_bits())), result.map(|(_, val)| val));
}

#[test]
fn test_input_only() {
    let unit = "m/s";
    let result = get(INPUT_STR_ONLY, unit);

    assert_eq!(Ok(Speed(69.0f32.to_bits())), result.map(|(_, val)| val));
}

#[test]
fn get_returns_the_whole_line() {
    let result = get(INPUT_STR, "m/s");

    assert_eq!(Ok(INPUT_STR), result.map(|(line, _)| line));
}

#[test]
fn speed_decodes_to_the_number_in_the_line() {
    let (_, Speed(bits)) = get("gust 12.5m/s", "m/s").unwrap();

    assert_eq!(12.5f32, f32::from_bits(bits));
}

#[test]
fn number_with_another_unit_is_passed_over() {
    let (_, Speed(bits)) = get("7 km/h 3 m/s", "m/s").unwrap();

    assert_eq!(3.0f32, f32::from_bits(bits));
}

#[test]
fn line_without_the_unit_has_no_speed() {
    assert_eq!(Err(InvalidInput::NoSpeed), get("18.2 km/h", "m/s"));
    assert_eq!(Err(InvalidInput::NoSpeed), get("", "m/s"));
}

#[test]
fn exponent_without_digits_is_malformed() {
    assert_eq!(Err(InvalidInput::Malformed), get("4e m/s", "m/s"));
}

#[test]
fn from_scan_goes_by_the_outcome_given() {
    assert_eq!(Ok(("x", Speed(7))), from_scan("x", Ok(7)));
    assert_eq!(Err(InvalidInput::NoSpeed), from_scan("x", Err(ParseStop::Incomplete)));
    assert_eq!(Err(InvalidInput::Malformed), from_scan("x", Err(ParseStop::Error)));
    assert_eq!(Err(InvalidInput::Malformed), from_scan("x", Err(ParseStop::Failure)));
}

#[test]
fn parse_error_becomes_invalid_speed() {
    let error = "abc".parse::<f32>().unwrap_err();

    assert_eq!(InvalidInput::Speed(error.clone()), InvalidInput::from(error));
}

#[test]
fn invalid_input_messages() {
    let error = "abc".parse::<f32>().unwrap_err();

    assert_eq!("invalid float for speed", InvalidInput::from(error).message());
    assert_eq!("speed value is not provided", InvalidInput::NoSpeed.message());
    assert_eq!(
        "malformed input, couldn't parse anything",
        InvalidInput::Malformed.message()
    );
}

#[test]
fn search_agrees_with_the_combinators() {
    let lines = [
        INPUT_STR,
        INPUT_STR_ONLY,
        "",
        " ",
        "m/s",
        "69",
        "69 ",
        "69 m",
        "69 m/",
        "69 m/s",
        "69m/s",
        "69\tm/s",
        "69 \t m/s and more",
        "69 km/h 3 m/s",
        "x69 m/s",
        "-3.5 m/s",
        "+3.5 m/s",
        ".5 m/s",
        "5. m/s",
        "1e3 m/s",
        "1e m/s",
        "1e+ m/s",
        "4e m/s",
        "12e",
        "nan m/s",
        "inf m/s",
        "infinity m/s",
        "NaN m/s",
        "speed: 7.25 m/s!",
        "18.2°C 40.7% 4.04 m/s",
        "скорость 3,5 м/с",
        "скорость 3.5 м/с",
        "9 м",
        "1.2.3 m/s",
        "- m/s",
        "e5 m/s",
        "0 m/s",
        "000012.5000   m/s",
        "1 2 3 4 m/s",
        "3 m/sec",
        "3 M/S",
    ];
    let units = ["m/s", "м/с", "km/h", "", "m", "°C", "%"];
    for line in lines {
        for unit in units {
            assert_eq!(combined(line, unit), scan_speed(line, unit), "{:?} {:?}", line, unit);
        }
    }
}

#[test]
fn unit_may_follow_blanks() {
    assert_eq!(Ok(()), follows("m/s", "m/s"));
    assert_eq!(Ok(()), follows("   m/s", "m/s"));
    assert_eq!(Ok(()), follows(" \t m/s and more", "m/s"));
    assert_eq!(Ok(()), follows("x", ""));
}

#[test]
fn another_text_is_an_error() {
    assert_eq!(Err(ParseStop::Error), follows("km/h", "m/s"));
    assert_eq!(Err(ParseStop::Error), follows("  °C", "m/s"));
    assert_eq!(Err(ParseStop::Error), follows("\nm/s", "m/s"));
    assert_eq!(Err(ParseStop::Error), follows("M/S", "m/s"));
}

#[test]
fn text_that_gives_out_is_incomplete() {
    assert_eq!(Err(ParseStop::Incomplete), follows("", "m/s"));
    assert_eq!(Err(ParseStop::Incomplete), follows("   ", "m/s"));
    assert_eq!(Err(ParseStop::Incomplete), follows("", ""));
    assert_eq!(Err(ParseStop::Incomplete), follows(" m", "m/s"));
    assert_eq!(Err(ParseStop::Incomplete), follows("m/", "m/s"));
}

#[test]
fn number_is_read_at_the_start_only() {
    assert_eq!(Ok(69.0f32.to_bits()), read_number("69 m/s", "m/s"));
    assert_eq!(Ok((-2.5f32).to_bits()), read_number("-2.5m/s", "m/s"));
    assert_eq!(Err(ParseStop::Error), read_number(" 69 m/s", "m/s"));
    assert_eq!(Err(ParseStop::Error), read_number("69 km/h", "m/s"));
    assert_eq!(Err(ParseStop::Incomplete), read_number("69", "m/s"));
    assert_eq!(Err(ParseStop::Failure), read_number("4e m/s", "m/s"));
}

#[test]
fn search_finds_the_first_speed() {
    assert_eq!(Ok(1.0f32.to_bits()), scan_speed("1 m/s 2 m/s", "m/s"));
    assert_eq!(Ok(2.0f32.to_bits()), scan_speed("1 km/h 2 m/s", "m/s"));
    assert_eq!(Err(ParseStop::Incomplete), scan_speed("1 km/h 2 m/", "m/s"));
    assert_eq!(Err(ParseStop::Incomplete), scan_speed("", "m/s"));
}
