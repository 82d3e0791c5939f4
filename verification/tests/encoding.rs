use rust_auth::encoding::{hex_number, is_hex, parse_hex};

#[test]
fn hex_number_writes_fixed_width_lowercase_digits() {
    assert_eq!(hex_number(255, 4), "00ff");
    assert_eq!(hex_number(0x0123_4567_89ab_cdef, 16), "0123456789abcdef");
    assert_eq!(hex_number(0, 3), "000");
    assert_eq!(hex_number(u128::MAX, 32), "ffffffffffffffffffffffffffffffff");
}

#[test]
fn hex_number_keeps_the_last_digits_of_a_wider_number() {
    assert_eq!(hex_number(0x1f, 1), "f");
    assert_eq!(hex_number(0xabcd, 2), "cd");
    assert_eq!(hex_number(0xabcd, 0), "");
}

#[test]
fn parse_hex_reads_what_hex_number_writes() {
    assert_eq!(parse_hex("00ff"), Some(255));
    assert_eq!(parse_hex("0123456789abcdef"), Some(0x0123_4567_89ab_cdef));
    assert_eq!(parse_hex(""), Some(0));
    assert_eq!(parse_hex("ffffffffffffffffffffffffffffffff"), Some(u128::MAX));
    let values: [u128; 5] = [0, 1, 0x10, 0xdead_beef, u128::MAX - 7];
    for value in values {
        assert_eq!(parse_hex(&hex_number(value, 32)), Some(value));
    }
}

#[test]
fn parse_hex_refuses_what_is_not_lowercase_hexadecimal() {
    assert_eq!(parse_hex("0g"), None);
    assert_eq!(parse_hex("FF"), None);
    assert_eq!(parse_hex(" 1"), None);
    assert_eq!(parse_hex("1\u{e9}"), None);
    assert_eq!(parse_hex("-1"), None);
}

#[test]
fn parse_hex_refuses_more_than_thirty_two_digits() {
    assert_eq!(parse_hex("000000000000000000000000000000000"), None);
    assert_eq!(parse_hex("00000000000000000000000000000000"), Some(0));
}

#[test]
fn is_hex_accepts_lowercase_digits_only() {
    assert!(is_hex(""));
    assert!(is_hex("0123456789abcdef"));
    assert!(!is_hex("0123456789ABCDEF"));
    assert!(!is_hex("12 34"));
    assert!(!is_hex("\u{fc}"));
    assert!(!is_hex("/"));
    assert!(!is_hex(":"));
    assert!(!is_hex("`"));
    assert!(!is_hex("g"));
}
