use dice_trace::hex::{hex_digit_value, nibble_to_hex};
use dice_trace::text::{parse_u32, trim_bytes};

#[test]
fn trimming_strips_ascii_whitespace_on_both_sides() {
    assert_eq!(trim_bytes(b"  abc\r\n"), b"abc");
    assert_eq!(trim_bytes(b"abc"), b"abc");
    assert_eq!(trim_bytes(b"\t \n"), b"");
    assert_eq!(trim_bytes(b""), b"");
    assert_eq!(trim_bytes(b"a b"), b"a b");
}

#[test]
fn decimal_parsing_matches_str_parse() {
    assert_eq!(parse_u32(b"0"), Some(0));
    assert_eq!(parse_u32(b"42"), Some(42));
    assert_eq!(parse_u32(b"+42"), Some(42));
    assert_eq!(parse_u32(b"0042"), Some(42));
    assert_eq!(parse_u32(b"4294967295"), Some(u32::MAX));
    assert_eq!(parse_u32(b"4294967296"), None);
    assert_eq!(parse_u32(b"99999999999999999999"), None);
    assert_eq!(parse_u32(b""), None);
    assert_eq!(parse_u32(b"+"), None);
    assert_eq!(parse_u32(b"12a"), None);
    assert_eq!(parse_u32(b" 1"), None);
}

#[test]
fn hex_digits_read_and_print() {
    assert_eq!(hex_digit_value(b'0'), Some(0));
    assert_eq!(hex_digit_value(b'9'), Some(9));
    assert_eq!(hex_digit_value(b'a'), Some(10));
    assert_eq!(hex_digit_value(b'f'), Some(15));
    assert_eq!(hex_digit_value(b'A'), Some(10));
    assert_eq!(hex_digit_value(b'F'), Some(15));
    assert_eq!(hex_digit_value(b'g'), None);
    assert_eq!(hex_digit_value(b'-'), None);
    assert_eq!(nibble_to_hex(0), b'0');
    assert_eq!(nibble_to_hex(9), b'9');
    assert_eq!(nibble_to_hex(10), b'a');
    assert_eq!(nibble_to_hex(15), b'f');
}
