use vesting_contracts::decimal::{parse_u64, to_decimal};

#[test]
fn parse_u64_reads_numerals() {
    assert_eq!(parse_u64("0"), Some(0));
    assert_eq!(parse_u64("7"), Some(7));
    assert_eq!(parse_u64("105"), Some(105));
    assert_eq!(parse_u64("18446744073709551615"), Some(u64::MAX));
}

#[test]
fn parse_u64_allows_a_plus_and_leading_zeros() {
    assert_eq!(parse_u64("+105"), Some(105));
    assert_eq!(parse_u64("000105"), Some(105));
    assert_eq!(parse_u64("+000"), Some(0));
    assert_eq!(
        parse_u64("00000000000000000000000018446744073709551615"),
        Some(u64::MAX)
    );
}

#[test]
fn parse_u64_rejects_what_is_no_numeral() {
    assert_eq!(parse_u64(""), None);
    assert_eq!(parse_u64("+"), None);
    assert_eq!(parse_u64("-"), None);
    assert_eq!(parse_u64("-0"), None);
    assert_eq!(parse_u64("-5"), None);
    assert_eq!(parse_u64("++5"), None);
    assert_eq!(parse_u64("5+"), None);
    assert_eq!(parse_u64(" 5"), None);
    assert_eq!(parse_u64("5 "), None);
    assert_eq!(parse_u64("1_000"), None);
    assert_eq!(parse_u64("0x10"), None);
    assert_eq!(parse_u64("1.5"), None);
    assert_eq!(parse_u64("12a"), None);
    assert_eq!(parse_u64("\u{0661}\u{0662}"), None);
    assert_eq!(parse_u64("1\u{00e9}"), None);
}

#[test]
fn parse_u64_rejects_what_does_not_fit() {
    assert_eq!(parse_u64("18446744073709551616"), None);
    assert_eq!(parse_u64("18446744073709551620"), None);
    assert_eq!(parse_u64("99999999999999999999"), None);
    assert_eq!(parse_u64("184467440737095516150"), None);
    assert_eq!(parse_u64("18446744073709551616x"), None);
}

#[test]
fn parse_u64_agrees_with_the_standard_library() {
    let texts = [
        "", "+", "-", "0", "+0", "-0", "00", "42", "+42", "-42", "4 2", "42\n", "\u{0664}\u{0662}",
        "18446744073709551615", "18446744073709551616", "+18446744073709551615", "1e3", "\u{ff10}",
    ];
    for text in texts {
        assert_eq!(parse_u64(text), text.parse::<u64>().ok(), "{:?}", text);
    }
}

#[test]
fn to_decimal_writes_numerals() {
    assert_eq!(to_decimal(0), "0");
    assert_eq!(to_decimal(9), "9");
    assert_eq!(to_decimal(10), "10");
    assert_eq!(to_decimal(1000000), "1000000");
    assert_eq!(to_decimal(500000), "500000");
    assert_eq!(
        to_decimal(u128::MAX),
        "340282366920938463463374607431768211455"
    );
}

#[test]
fn to_decimal_agrees_with_the_standard_library() {
    let mut n: u128 = 1;
    for _ in 0..128 {
        assert_eq!(to_decimal(n), n.to_string());
        assert_eq!(to_decimal(n - 1), (n - 1).to_string());
        n = n.wrapping_mul(2);
    }
}

#[test]
fn parse_u64_reads_what_to_decimal_writes() {
    for n in [0u64, 1, 9, 10, 99, 100, 105, 1 << 32, u64::MAX - 1, u64::MAX] {
        assert_eq!(parse_u64(&to_decimal(n as u128)), Some(n));
    }
}
