use sv2_custom_proxy::hex::{encode_hex, is_reversible_hash, reverse_hash};
use sv2_custom_proxy::text::{
    char_is_whitespace, decimal_string, parse_u64, utf8_lossy, words_of, IntParseError,
};

#[test]
fn encode_hex_writes_two_lowercase_digits_per_byte() {
    assert_eq!(encode_hex(&[]), "");
    assert_eq!(encode_hex(&[0x00]), "00");
    assert_eq!(encode_hex(&[0x0f, 0xa0, 0xff]), "0fa0ff");
    assert_eq!(encode_hex(&[0xde, 0xad, 0xbe, 0xef]), "deadbeef");
}

#[test]
fn reverse_hash_reverses_byte_order() {
    assert_eq!(reverse_hash("0011aabb"), "bbaa1100");
    assert_eq!(reverse_hash(""), "");
}

#[test]
fn reverse_hash_reads_uppercase_and_writes_lowercase() {
    assert_eq!(reverse_hash("ABCD"), "cdab");
}

#[test]
fn reverse_hash_reads_odd_trailing_digit_as_one_byte() {
    // chunks "ab", "c": bytes 0xab, 0x0c
    assert_eq!(reverse_hash("abc"), "0cab");
}

#[test]
fn reverse_hash_reads_plus_sign_chunk() {
    // "+a" reads as 0x0a, as u8::from_str_radix does
    assert_eq!(reverse_hash("+a01"), "010a");
}

#[test]
fn reversible_hash_check_matches_what_reverse_hash_accepts() {
    assert!(is_reversible_hash("00ff"));
    assert!(is_reversible_hash("+f"));
    assert!(is_reversible_hash(""));
    assert!(!is_reversible_hash("zz"));
    assert!(!is_reversible_hash("0g"));
    assert!(!is_reversible_hash("++"));
    assert!(!is_reversible_hash("é0"));
}

#[test]
fn reverse_of_encoded_prev_hash_is_display_order() {
    let bytes: Vec<u8> = (0u8..32).collect();
    let mut reversed = bytes.clone();
    reversed.reverse();
    assert_eq!(reverse_hash(&encode_hex(&bytes)), encode_hex(&reversed));
}

#[test]
fn reverse_hash_twice_gives_normalized_input() {
    assert_eq!(reverse_hash(&reverse_hash("A1b2C3")), "a1b2c3");
}

#[test]
fn decimal_string_matches_to_string() {
    for n in [0u64, 7, 10, 99, 100, 4294967295, u64::MAX] {
        assert_eq!(decimal_string(n), n.to_string());
    }
}

#[test]
fn parse_u64_reads_decimal_numbers() {
    assert_eq!(parse_u64("0"), Ok(0));
    assert_eq!(parse_u64("312500000"), Ok(312500000));
    assert_eq!(parse_u64("+42"), Ok(42));
    assert_eq!(parse_u64("18446744073709551615"), Ok(u64::MAX));
}

#[test]
fn parse_u64_errors_as_std_does() {
    assert_eq!(parse_u64(""), Err(IntParseError::Empty));
    assert_eq!(parse_u64("+"), Err(IntParseError::InvalidDigit));
    assert_eq!(parse_u64("-"), Err(IntParseError::InvalidDigit));
    assert_eq!(parse_u64("-1"), Err(IntParseError::InvalidDigit));
    assert_eq!(parse_u64("12a"), Err(IntParseError::InvalidDigit));
    assert_eq!(parse_u64("18446744073709551616"), Err(IntParseError::PosOverflow));
    assert_eq!(parse_u64("99999999999999999999x"), Err(IntParseError::PosOverflow));
    for s in ["", "+", "-1", "12a", "18446744073709551616", "007", "+5"] {
        let std_result = s.parse::<u64>().map_err(|_| ());
        assert_eq!(parse_u64(s).map_err(|_| ()), std_result, "{s}");
    }
}

#[test]
fn utf8_lossy_decodes_and_replaces() {
    assert_eq!(utf8_lossy(b"miner-1"), "miner-1");
    assert_eq!(utf8_lossy(&[0x61, 0xff, 0x62]), "a\u{fffd}b");
}

#[test]
fn whitespace_test_agrees_with_std() {
    for c in (0u32..0x3100).filter_map(char::from_u32) {
        assert_eq!(char_is_whitespace(c), c.is_whitespace(), "{:?}", c);
    }
}

#[test]
fn words_agree_with_split_whitespace() {
    for s in ["", "a", "  a  b ", "x\u{a0}y\u{3000}z", "a\tb\r\nc", "é ü"] {
        let chars: Vec<char> = s.chars().collect();
        let words: Vec<String> = words_of(&chars).iter().map(|w| w.iter().collect()).collect();
        let expected: Vec<String> = s.split_whitespace().map(|w| w.to_string()).collect();
        assert_eq!(words, expected, "{s:?}");
    }
}
