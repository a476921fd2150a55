use bonelab_mod_manager::text::{ends_with, format_decimal, parse_decimal, starts_with};

#[test]
fn parse_decimal_reads_digits() {
    assert_eq!(parse_decimal("1000"), Some(1000));
    assert_eq!(parse_decimal("0"), Some(0));
    assert_eq!(parse_decimal("007"), Some(7));
}

#[test]
fn parse_decimal_rejects_other_text() {
    assert_eq!(parse_decimal(""), None);
    assert_eq!(parse_decimal("12a"), None);
    assert_eq!(parse_decimal("-5"), None);
    assert_eq!(parse_decimal(" 5"), None);
}

#[test]
fn parse_decimal_limits() {
    assert_eq!(parse_decimal("18446744073709551615"), Some(u64::MAX));
    assert_eq!(parse_decimal("18446744073709551616"), None);
    assert_eq!(parse_decimal("99999999999999999999x"), None);
}

#[test]
fn format_decimal_writes_digits() {
    assert_eq!(format_decimal(0), "0");
    assert_eq!(format_decimal(2000), "2000");
    assert_eq!(format_decimal(u64::MAX), "18446744073709551615");
}

#[test]
fn decimal_round_trip_on_values() {
    for n in [0u64, 9, 10, 1000, 1_700_000_000_000, u64::MAX] {
        assert_eq!(parse_decimal(&format_decimal(n)), Some(n));
    }
}

#[test]
fn prefixes_and_suffixes() {
    assert!(ends_with("a.manifest", ".manifest"));
    assert!(!ends_with("manifest", ".manifest"));
    assert!(starts_with("SLZ.Core.manifest", "SLZ"));
    assert!(!starts_with("SL", "SLZ"));
    assert!(starts_with("x", ""));
}
