use hub::text::{append_numeral, byte_is_digit, decode_payload, parse_usize, same_text};

#[test]
fn digits_are_zero_to_nine() {
    for b in b'0'..=b'9' {
        assert!(byte_is_digit(b));
    }
    assert!(!byte_is_digit(b'/'));
    assert!(!byte_is_digit(b':'));
    assert!(!byte_is_digit(b'a'));
}

#[test]
fn payload_must_be_utf8() {
    assert_eq!(decode_payload(b"kitchen on"), Some("kitchen on"));
    assert_eq!(decode_payload(b""), Some(""));
    assert_eq!(decode_payload("caf\u{e9} \u{3000}".as_bytes()), Some("caf\u{e9} \u{3000}"));
    assert_eq!(decode_payload(b"\xff\xfe"), None);
    assert_eq!(decode_payload(b"5\xff"), None);
    assert_eq!(decode_payload(b"\xc3"), None);
    assert_eq!(decode_payload(b"\xed\xa0\x80"), None);
}

#[test]
fn texts_are_compared_letter_for_letter() {
    assert!(same_text("kitchen", "kitchen"));
    assert!(same_text("", ""));
    assert!(!same_text("kitchen", "Kitchen"));
    assert!(!same_text("kitchen", "kitchen "));
    assert!(!same_text("\u{e9}", "e\u{301}"));
}

#[test]
fn numbers_fit_a_machine_word_or_are_none() {
    assert_eq!(parse_usize(b"0"), Some(0));
    assert_eq!(parse_usize(b"7"), Some(7));
    assert_eq!(parse_usize(b"123"), Some(123));
    assert_eq!(parse_usize(b"+123"), Some(123));
    assert_eq!(parse_usize(b"000123"), Some(123));
    assert_eq!(
        parse_usize(usize::MAX.to_string().as_bytes()),
        Some(usize::MAX)
    );
    assert_eq!(parse_usize(b"340282366920938463463374607431768211456"), None);
    assert_eq!(parse_usize(format!("{}0", usize::MAX).as_bytes()), None);
    assert_eq!(parse_usize(b""), None);
    assert_eq!(parse_usize(b"+"), None);
    assert_eq!(parse_usize(b"-1"), None);
    assert_eq!(parse_usize(b"-0"), None);
    assert_eq!(parse_usize(b"1a"), None);
    assert_eq!(parse_usize(b" 1"), None);
    assert_eq!(parse_usize(b"99999999999999999999999999x"), None);
}

#[test]
fn parse_usize_agrees_with_the_standard_parser() {
    for text in ["0", "8", "+8", "-8", "", "+", "12a", "00012", "18446744073709551615",
        "18446744073709551616", "4294967296", "99999999999999999999999"]
    {
        assert_eq!(parse_usize(text.as_bytes()), text.parse::<usize>().ok());
    }
}

#[test]
fn numerals_have_no_leading_zeros() {
    for (n, text) in [
        (0usize, "0"),
        (7, "7"),
        (9, "9"),
        (10, "10"),
        (99, "99"),
        (100, "100"),
        (1234567890, "1234567890"),
    ] {
        let mut out = Vec::new();
        append_numeral(&mut out, n);
        assert_eq!(out, text.as_bytes().to_vec());
    }
    let mut out = b"n=".to_vec();
    append_numeral(&mut out, usize::MAX);
    assert_eq!(out, format!("n={}", usize::MAX).into_bytes());
}

#[test]
fn numeral_round_trip() {
    for n in [0usize, 1, 7, 8, 10, 255, 65535, 1_000_000, usize::MAX] {
        let mut out = Vec::new();
        append_numeral(&mut out, n);
        assert_eq!(parse_usize(&out), Some(n));
    }
}
