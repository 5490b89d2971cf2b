use wind_tones::{AudioError, Binary64, Fade, Piece, Static};

fn number(x: f64) -> Binary64 {
    Binary64::from_bits(x.to_bits())
}

#[test]
fn constant_tone_with_frequency_zero_is_rejected() {
    assert_eq!(Err(AudioError::InvalidParameter), Static::new(number(0.0), number(0.9)));
}

#[test]
fn constant_tone_keeps_its_parameters() {
    let tone = Static::new(number(440.0), number(0.9)).unwrap();

    assert_eq!(440.0, f64::from_bits(tone.frequency().to_bits()));
    assert_eq!(0.9, f64::from_bits(tone.amplitude().to_bits()));
}

#[test]
fn amplitude_is_not_checked() {
    assert!(Static::new(number(440.0), number(7.5)).is_ok());
    assert!(Static::new(number(440.0), number(-1.0)).is_ok());
    assert!(Static::new(number(440.0), number(f64::NAN)).is_ok());
}

#[test]
fn frequency_must_be_greater_than_zero() {
    let cases = [
        0.0,
        -0.0,
        -1.0,
        -440.0,
        f64::NAN,
        f64::NEG_INFINITY,
        f64::MIN_POSITIVE,
        5e-324,
        1.0,
        440.0,
        f64::MAX,
        f64::INFINITY,
    ];
    for f in cases {
        assert_eq!(f > 0.0, Static::new(number(f), number(1.0)).is_ok());
        assert_eq!(f > 0.0, Fade::new(number(f), number(1.0), false).is_ok());
        assert_eq!(f > 0.0, number(f).is_positive());
    }
}

#[test]
fn fade_with_frequency_zero_is_rejected() {
    assert_eq!(
        Err(AudioError::InvalidParameter),
        Fade::new(number(0.0), number(1.0), false)
    );
    assert_eq!(
        Err(AudioError::InvalidParameter),
        Fade::new(number(-200.0), number(1.0), true)
    );
}

#[test]
fn fade_keeps_its_parameters() {
    let fade = Fade::new(number(200.0), number(1.0), true).unwrap();

    assert_eq!(200.0, f64::from_bits(fade.frequency().to_bits()));
    assert_eq!(1.0, f64::from_bits(fade.end_amplitude().to_bits()));
    assert!(fade.reverse());
    assert!(!Fade::new(number(200.0), number(1.0), false).unwrap().reverse());
}

#[test]
fn only_fades_divide_by_the_sample_count() {
    let tone = Static::new(number(440.0), number(0.9)).unwrap();
    let fade = Fade::new(number(200.0), number(1.0), false).unwrap();

    assert!(!Piece::Static(tone).divides_by_count());
    assert!(Piece::Fadeout(fade).divides_by_count());
}

#[test]
fn encoding_is_kept() {
    assert_eq!(0x4059_0000_0000_0000, number(100.0).to_bits());
    assert_eq!(number(100.0), Binary64::from_bits(0x4059_0000_0000_0000));
}
