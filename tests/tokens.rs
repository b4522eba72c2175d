use nmea0183::numeric::{parse_decimal, parse_i32, parse_u32, parse_u8, Decimal};
use nmea0183::sentences::{UnitsOfMeasurement, UnitsOfSpeed};

fn dec(mantissa: i64, scale: usize) -> Decimal {
    Decimal { mantissa, scale }
}

#[test]
fn decimals_are_exact_and_canonical() {
    assert_eq!(parse_decimal("+023.1"), Some(dec(231, 1)));
    assert_eq!(parse_decimal("0.9989"), Some(dec(9989, 4)));
    assert_eq!(parse_decimal("040"), Some(dec(40, 0)));
    assert_eq!(parse_decimal("-10.2"), Some(dec(-102, 1)));
    assert_eq!(parse_decimal("-0.210"), Some(dec(-21, 2)));
    assert_eq!(parse_decimal("0.0000"), Some(dec(0, 0)));
    assert_eq!(parse_decimal("-0.0"), Some(dec(0, 0)));
    assert_eq!(parse_decimal(".5"), Some(dec(5, 1)));
    assert_eq!(parse_decimal("5."), Some(dec(5, 0)));
    assert_eq!(parse_decimal("9223372036854775807"), Some(dec(i64::MAX, 0)));
}

#[test]
fn non_decimals_are_refused() {
    for t in ["", "+", ".", "-.", "1.2.3", "1e3", "abc", " 1", "1 ", "--1", "9223372036854775808", "٣"] {
        assert_eq!(parse_decimal(t), None, "{}", t);
    }
}

#[test]
fn integers_respect_their_range() {
    assert_eq!(parse_i32("049"), Some(49));
    assert_eq!(parse_i32("+1"), Some(1));
    assert_eq!(parse_i32("-1"), Some(-1));
    assert_eq!(parse_i32("-2147483648"), Some(i32::MIN));
    assert_eq!(parse_i32("2147483647"), Some(i32::MAX));
    assert_eq!(parse_i32("2147483648"), None);
    assert_eq!(parse_i32("1.0"), None);
    assert_eq!(parse_i32(""), None);
    assert_eq!(parse_u32("0000"), Some(0));
    assert_eq!(parse_u32("4294967295"), Some(u32::MAX));
    assert_eq!(parse_u32("4294967296"), None);
    assert_eq!(parse_u32("-0"), None);
    assert_eq!(parse_u8("+7"), Some(7));
    assert_eq!(parse_u8("255"), Some(255));
    assert_eq!(parse_u8("256"), None);
}

#[test]
fn unit_codes() {
    assert_eq!(UnitsOfSpeed::from_char("N"), Some(UnitsOfSpeed::Knots));
    assert_eq!(UnitsOfSpeed::from_char("K"), Some(UnitsOfSpeed::KilometersPerHour));
    assert_eq!(UnitsOfSpeed::from_char("NN"), None);
    assert_eq!(UnitsOfSpeed::from_char(""), None);
    assert_eq!(UnitsOfMeasurement::from_char("I"), Some(UnitsOfMeasurement::LitresPerSecond));
    assert_eq!(UnitsOfMeasurement::from_char("S"), Some(UnitsOfMeasurement::PartsPerThousand));
    assert_eq!(UnitsOfMeasurement::from_char("X"), None);
}
