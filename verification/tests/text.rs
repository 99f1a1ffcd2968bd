use tracy::text::concat2;
use tracy::text::format_u128;
use tracy::text::parse_u128;
use tracy::text::parse_u64;
use tracy::text::skip_chars;
use tracy::text::starts_with;
use tracy::text::str_eq;

#[test]
fn parse_reads_plain_decimal() {
    assert_eq!(parse_u128("1000000"), Some(1_000_000u128));
    assert_eq!(parse_u128("0"), Some(0));
    assert_eq!(parse_u128("007"), Some(7));
}

#[test]
fn parse_accepts_a_leading_plus_sign() {
    assert_eq!(parse_u128("+42"), Some(42));
    assert_eq!(parse_u128("+"), None);
    assert_eq!(parse_u128("++1"), None);
}

#[test]
fn parse_rejects_what_is_no_number() {
    assert_eq!(parse_u128(""), None);
    assert_eq!(parse_u128("-1"), None);
    assert_eq!(parse_u128("12a"), None);
    assert_eq!(parse_u128(" 12"), None);
    assert_eq!(parse_u128("12 "), None);
    assert_eq!(parse_u128("1_000"), None);
    assert_eq!(parse_u128("1.5"), None);
    assert_eq!(parse_u128("١٢"), None);
    assert_eq!(parse_u128("12é"), None);
}

#[test]
fn parse_stops_at_the_128_bit_range() {
    assert_eq!(parse_u128("340282366920938463463374607431768211455"), Some(u128::MAX));
    assert_eq!(parse_u128("340282366920938463463374607431768211456"), None);
    assert_eq!(parse_u128("3402823669209384634633746074317682114550"), None);
    assert_eq!(parse_u128("999999999999999999999999999999999999999"), None);
}

#[test]
fn parse_u64_stops_at_the_64_bit_range() {
    assert_eq!(parse_u64("18446744073709551615"), Some(u64::MAX));
    assert_eq!(parse_u64("18446744073709551616"), None);
    assert_eq!(parse_u64("561"), Some(561));
    assert_eq!(parse_u64("pool"), None);
}

#[test]
fn parse_agrees_with_the_standard_parser() {
    let samples = [
        "", "+", "-", "0", "+0", "-0", "00", "1", "+1", "10", "99", "1e3", "0x10", "12 ", "\t1",
        "340282366920938463463374607431768211455", "340282366920938463463374607431768211456",
        "18446744073709551615", "18446744073709551616", "+00000000000000000000000000000000000000000001",
    ];
    for text in samples {
        assert_eq!(parse_u128(text), u128::from_str_radix(text, 10).ok(), "u128 {:?}", text);
        assert_eq!(parse_u64(text), u64::from_str_radix(text, 10).ok(), "u64 {:?}", text);
    }
}

#[test]
fn format_writes_shortest_decimal() {
    assert_eq!(format_u128(0), "0");
    assert_eq!(format_u128(9), "9");
    assert_eq!(format_u128(10), "10");
    assert_eq!(format_u128(1_000_000), "1000000");
    assert_eq!(format_u128(u128::MAX), "340282366920938463463374607431768211455");
}

#[test]
fn format_then_parse_round_trips() {
    let samples = [0u128, 1, 9, 10, 11, 99, 100, 12345678901234567890, u64::MAX as u128, u128::MAX];
    for n in samples {
        let text = format_u128(n);
        assert_eq!(text, n.to_string());
        assert_eq!(parse_u128(&text), Some(n));
    }
}

#[test]
fn str_eq_compares_texts() {
    assert!(str_eq("uatom", "uatom"));
    assert!(!str_eq("uatom", "uatom "));
    assert!(!str_eq("uatom", "uosmo"));
    assert!(str_eq("", ""));
    assert!(str_eq("žluťoučký", "žluťoučký"));
    assert!(!str_eq("žluťoučký", "zlutoucky"));
}

#[test]
fn starts_with_finds_prefixes() {
    assert!(starts_with("ibc/27394F", "ibc/"));
    assert!(starts_with("ibc/", "ibc/"));
    assert!(!starts_with("ibc", "ibc/"));
    assert!(!starts_with("xibc/1", "ibc/"));
    assert!(starts_with("anything", ""));
    assert!(starts_with("één/twee", "één/"));
}

#[test]
fn skip_chars_drops_characters_not_bytes() {
    assert_eq!(skip_chars("ibc/ABC", 4), "ABC");
    assert_eq!(skip_chars("ibc/", 4), "");
    assert_eq!(skip_chars("één/twee", 4), "twee");
    assert_eq!(skip_chars("abc", 0), "abc");
    assert_eq!(skip_chars("abc", 3), "");
    assert_eq!(skip_chars("abc", 4), "");
    assert_eq!(skip_chars("", 1), "");
}

#[test]
fn concat2_joins_two_texts() {
    assert_eq!(concat2("No config for chain ", "juno"), "No config for chain juno");
    assert_eq!(concat2("", ""), "");
}
