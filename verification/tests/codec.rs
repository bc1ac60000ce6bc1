use lenovo_vantage::fan::FanMode;
use lenovo_vantage::parse::parse_trimmed_u8;

#[test]
fn read_codes_decode_per_table() {
    assert_eq!(FanMode::from_read_code(0), Some(FanMode::SuperSilent));
    assert_eq!(FanMode::from_read_code(1), Some(FanMode::Standard));
    assert_eq!(FanMode::from_read_code(2), Some(FanMode::DustCleaning));
    assert_eq!(
        FanMode::from_read_code(3),
        Some(FanMode::EfficientThermalDissipation)
    );
    assert_eq!(FanMode::from_read_code(133), Some(FanMode::SuperSilent));
}

#[test]
fn legacy_alias_decodes_as_super_silent() {
    assert_eq!(FanMode::from_read_code(133), Some(FanMode::SuperSilent));
}

#[test]
fn codes_outside_the_table_do_not_decode() {
    assert_eq!(FanMode::from_read_code(4), None);
    assert_eq!(FanMode::from_read_code(5), None);
    assert_eq!(FanMode::from_read_code(132), None);
    assert_eq!(FanMode::from_read_code(134), None);
    assert_eq!(FanMode::from_read_code(255), None);
}

#[test]
fn write_codes_match_the_write_side_table() {
    assert_eq!(FanMode::SuperSilent.write_code(), 0);
    assert_eq!(FanMode::Standard.write_code(), 1);
    assert_eq!(FanMode::DustCleaning.write_code(), 2);
    assert_eq!(FanMode::EfficientThermalDissipation.write_code(), 4);
}

#[test]
fn write_then_read_round_trips_where_the_driver_allows() {
    for mode in [FanMode::SuperSilent, FanMode::Standard, FanMode::DustCleaning] {
        assert_eq!(FanMode::from_read_code(mode.write_code()), Some(mode));
    }
    // The one exception: the write code for efficient thermal dissipation
    // has no read-side entry, so the round trip is inapplicable there.
    assert_eq!(
        FanMode::from_read_code(FanMode::EfficientThermalDissipation.write_code()),
        None
    );
}

#[test]
fn parse_plain_digits() {
    assert_eq!(parse_trimmed_u8(b"0"), Some(0));
    assert_eq!(parse_trimmed_u8(b"1"), Some(1));
    assert_eq!(parse_trimmed_u8(b"133"), Some(133));
    assert_eq!(parse_trimmed_u8(b"255"), Some(255));
}

#[test]
fn parse_trims_surrounding_whitespace() {
    assert_eq!(parse_trimmed_u8(b"0\n"), Some(0));
    assert_eq!(parse_trimmed_u8(b" \t2 \r\n"), Some(2));
    assert_eq!(parse_trimmed_u8(b"\n133\n"), Some(133));
}

#[test]
fn parse_keeps_leading_zeros_harmless() {
    assert_eq!(parse_trimmed_u8(b"007"), Some(7));
    assert_eq!(parse_trimmed_u8(b"000000000000133\n"), Some(133));
}

#[test]
fn parse_rejects_empty_and_blank() {
    assert_eq!(parse_trimmed_u8(b""), None);
    assert_eq!(parse_trimmed_u8(b"\n"), None);
    assert_eq!(parse_trimmed_u8(b" \t "), None);
}

#[test]
fn parse_rejects_non_digits() {
    assert_eq!(parse_trimmed_u8(b"x"), None);
    assert_eq!(parse_trimmed_u8(b"1x"), None);
    assert_eq!(parse_trimmed_u8(b"-1"), None);
    assert_eq!(parse_trimmed_u8(b"1 3"), None);
}

#[test]
fn parse_rejects_values_over_eight_bits() {
    assert_eq!(parse_trimmed_u8(b"256"), None);
    assert_eq!(parse_trimmed_u8(b"999"), None);
    assert_eq!(parse_trimmed_u8(b"99999999999999999999"), None);
}
