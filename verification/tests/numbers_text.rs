//! Decimal formatting and parsing, and the diagnostic join helper.
use consul_client::errors::strs_to_str;
use consul_client::numbers::{parse_u64_bytes, u64_to_dec};

#[test]
fn formats_decimals_exactly() {
    assert_eq!(u64_to_dec(0), "0");
    assert_eq!(u64_to_dec(7), "7");
    assert_eq!(u64_to_dec(10), "10");
    assert_eq!(u64_to_dec(90), "90");
    assert_eq!(u64_to_dec(12345678901234567890), "12345678901234567890");
    assert_eq!(u64_to_dec(u64::MAX), "18446744073709551615");
}

#[test]
fn parses_decimals_exactly() {
    assert_eq!(parse_u64_bytes(b"0"), Some(0));
    assert_eq!(parse_u64_bytes(b"42"), Some(42));
    assert_eq!(parse_u64_bytes(b"007"), Some(7));
    assert_eq!(parse_u64_bytes(b"18446744073709551615"), Some(u64::MAX));
    assert_eq!(parse_u64_bytes(b"18446744073709551616"), None);
    assert_eq!(parse_u64_bytes(b""), None);
    assert_eq!(parse_u64_bytes(b"+"), None);
    assert_eq!(parse_u64_bytes(b"+9"), Some(9));
    assert_eq!(parse_u64_bytes(b"12a"), None);
    assert_eq!(parse_u64_bytes(b" 12"), None);
}

#[test]
fn parse_agrees_with_the_standard_library() {
    for text in ["0", "42", "+42", "18446744073709551615", "18446744073709551616", "", "+", "x"] {
        assert_eq!(
            parse_u64_bytes(text.as_bytes()),
            text.parse::<u64>().ok(),
            "disagreement on {:?}",
            text
        );
    }
}

#[test]
fn round_trips_through_text() {
    for n in [0u64, 1, 9, 10, 4096, u64::MAX] {
        assert_eq!(parse_u64_bytes(u64_to_dec(n).as_bytes()), Some(n));
    }
}

#[test]
fn joins_reasons_with_commas() {
    assert_eq!(strs_to_str(&[]), "");
    assert_eq!(strs_to_str(&["alpha"]), "alpha");
    assert_eq!(strs_to_str(&["alpha", "beta", "gamma"]), "alpha, beta, gamma");
}
