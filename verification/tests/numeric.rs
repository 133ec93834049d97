use cosmos_balance_watcher::numeric::{from_atomics, parse_u128, pow10_u128, scale, u128_to_dec_string};

#[test]
fn scale_is_truncating_division() {
    assert_eq!(scale(1234, 2), 12);
    assert_eq!(scale(100, 0), 100);
    assert_eq!(scale(999_999, 6), 0);
    assert_eq!(scale(5_000_000, 6), 5);
    assert_eq!(scale(0, 18), 0);
    assert_eq!(scale(u128::MAX, 0), u128::MAX);
}

#[test]
fn scale_examples_as_strings() {
    assert_eq!(from_atomics("1234", 2), "12");
    assert_eq!(from_atomics("100", 0), "100");
}

#[test]
fn scale_is_deterministic() {
    for _ in 0..3 {
        assert_eq!(scale(1234, 2), 12);
        assert_eq!(from_atomics("1234", 2), "12");
    }
}

#[test]
fn from_atomics_drops_fractional_units() {
    assert_eq!(from_atomics("5000000", 6), "5");
    assert_eq!(from_atomics("5999999", 6), "5");
    assert_eq!(from_atomics("999999", 6), "0");
    assert_eq!(from_atomics("0", 6), "0");
    assert_eq!(from_atomics("1000000000000000000", 18), "1");
}

#[test]
fn from_atomics_handles_amounts_beyond_64_bits() {
    // 2^64 is 18446744073709551616; at 6 decimal places the display value
    // still needs more than 32 bits.
    assert_eq!(from_atomics("18446744073709551616", 6), "18446744073709");
}

#[test]
fn parse_u128_accepts_what_from_str_accepts() {
    assert_eq!(parse_u128("0"), Some(0));
    assert_eq!(parse_u128("42"), Some(42));
    assert_eq!(parse_u128("+42"), Some(42));
    assert_eq!(parse_u128("0042"), Some(42));
    assert_eq!(
        parse_u128("340282366920938463463374607431768211455"),
        Some(u128::MAX)
    );
}

#[test]
fn parse_u128_rejects_what_from_str_rejects() {
    assert_eq!(parse_u128(""), None);
    assert_eq!(parse_u128("+"), None);
    assert_eq!(parse_u128("-1"), None);
    assert_eq!(parse_u128("12a"), None);
    assert_eq!(parse_u128(" 12"), None);
    assert_eq!(parse_u128("1.5"), None);
    // one more than u128::MAX
    assert_eq!(parse_u128("340282366920938463463374607431768211456"), None);
    assert_eq!(parse_u128("999999999999999999999999999999999999999999"), None);
}

#[test]
fn parse_u128_agrees_with_std() {
    for s in [
        "0",
        "7",
        "+123",
        "18446744073709551616",
        "340282366920938463463374607431768211455",
        "340282366920938463463374607431768211456",
        "",
        "+",
        "x",
    ] {
        assert_eq!(parse_u128(s), s.parse::<u128>().ok(), "input {:?}", s);
    }
}

#[test]
fn u128_formatting_round_trips() {
    for v in [0u128, 9, 10, 1234, u128::MAX] {
        assert_eq!(u128_to_dec_string(v), v.to_string());
        assert_eq!(parse_u128(&u128_to_dec_string(v)), Some(v));
    }
}

#[test]
fn pow10_values() {
    assert_eq!(pow10_u128(0), 1);
    assert_eq!(pow10_u128(1), 10);
    assert_eq!(pow10_u128(6), 1_000_000);
    assert_eq!(pow10_u128(18), 1_000_000_000_000_000_000);
}
