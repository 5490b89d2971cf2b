use wind_tones::line::{decimal_points, is_blank};
use wind_tones::{measure, Speed};

const INPUT_STR_COMMA: &str =
    r"1             18.2°C 40.7% 4,04          m/s           15.06.2023\11:06:11";

#[test]
fn blank_lines_are_told_apart() {
    assert!(is_blank(""));
    assert!(is_blank("   "));
    assert!(is_blank(" \t\r\n"));
    assert!(is_blank("\u{a0}\u{2003}"));
    assert!(!is_blank("  4.04 m/s"));
    assert!(!is_blank("."));
}

#[test]
fn blank_agrees_with_trimming() {
    for line in ["", " ", "\t", " a ", "4,04 m/s", "\u{3000}", "\u{200b}"] {
        assert_eq!(line.trim().is_empty(), is_blank(line));
    }
}

#[test]
fn commas_become_points() {
    assert_eq!("4.04 m/s", decimal_points("4,04 m/s"));
    assert_eq!("4.04 m/s", decimal_points("4.04 m/s"));
    assert_eq!("1.2.3.", decimal_points("1,2.3,"));
    assert_eq!("", decimal_points(""));
    assert_eq!("18.2°C", decimal_points("18,2°C"));
}

#[test]
fn line_with_a_decimal_comma_is_read() {
    let Speed(bits) = measure(INPUT_STR_COMMA, "m/s").unwrap();

    assert_eq!(4.04f32, f32::from_bits(bits));
}

#[test]
fn line_with_a_decimal_point_is_read() {
    assert_eq!(Some(Speed(69.0f32.to_bits())), measure("69 m/s", "m/s"));
}

#[test]
fn blank_line_gives_no_speed() {
    assert_eq!(None, measure("", "m/s"));
    assert_eq!(None, measure("   \t", "m/s"));
}

#[test]
fn line_without_a_speed_gives_none() {
    assert_eq!(None, measure("no wind today", "m/s"));
    assert_eq!(None, measure("12 km/h", "m/s"));
}
