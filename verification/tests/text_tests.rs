use datanode_client::text::{format_decimal, parse_numeral, same_text};

#[test]
fn numerals_are_read() {
    assert_eq!(parse_numeral("0"), Some(0));
    assert_eq!(parse_numeral("3"), Some(3));
    assert_eq!(parse_numeral("502"), Some(502));
    assert_eq!(parse_numeral("007"), Some(7));
    assert_eq!(parse_numeral("18446744073709551615"), Some(u64::MAX));
}

#[test]
fn texts_that_are_no_numerals_are_refused() {
    assert_eq!(parse_numeral(""), None);
    assert_eq!(parse_numeral("abc"), None);
    assert_eq!(parse_numeral("12a"), None);
    assert_eq!(parse_numeral("-3"), None);
    assert_eq!(parse_numeral("+3"), None);
    assert_eq!(parse_numeral("3.0"), None);
    assert_eq!(parse_numeral(" 3"), None);
    assert_eq!(parse_numeral("٣"), None);
}

#[test]
fn numerals_beyond_64_bits_are_refused() {
    assert_eq!(parse_numeral("18446744073709551616"), None);
    assert_eq!(parse_numeral("99999999999999999999999"), None);
}

#[test]
fn numbers_are_written_in_canonical_decimal() {
    assert_eq!(format_decimal(0), "0");
    assert_eq!(format_decimal(9), "9");
    assert_eq!(format_decimal(10), "10");
    assert_eq!(format_decimal(502), "502");
    assert_eq!(format_decimal(40001), "40001");
    assert_eq!(format_decimal(u64::MAX), "18446744073709551615");
}

#[test]
fn written_numbers_read_back() {
    for n in [0u64, 1, 9, 10, 99, 100, 65535, 1 << 32, u64::MAX] {
        assert_eq!(parse_numeral(&format_decimal(n)), Some(n));
    }
}

#[test]
fn texts_compare_by_their_characters() {
    assert!(same_text("rapi", "rapi"));
    assert!(same_text("", ""));
    assert!(!same_text("rapi", "rap"));
    assert!(!same_text("rapi", "RAPI"));
}
