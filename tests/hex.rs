use milton::color::parse_hex;

#[test]
fn test_parse_hex_bad_empty() {
    assert_eq!(parse_hex(&"".to_string()), None);
}

#[test]
fn test_parse_hex_bad_odd() {
    assert_eq!(parse_hex(&"zzz".to_string()), None);
}

#[test]
fn test_parse_hex_bad_not_hex() {
    assert_eq!(parse_hex(&"zzzzzz".to_string()), None);
}

#[test]
fn test_parse_hex_red() {
    assert_eq!(parse_hex(&"#ff0000".to_string()), Some((255, 0, 0)));
}

#[test]
fn test_parse_hex_green() {
    assert_eq!(parse_hex(&"#00ff00".to_string()), Some((0, 255, 0)));
}

#[test]
fn test_parse_hex_blue() {
    assert_eq!(parse_hex(&"#0000ff".to_string()), Some((0, 0, 255)));
}

#[test]
fn parse_hex_mixed_case_digits() {
    assert_eq!(parse_hex(&"#A0b1C2".to_string()), Some((0xa0, 0xb1, 0xc2)));
}

#[test]
fn parse_hex_skips_pairs_that_are_not_hex() {
    assert_eq!(parse_hex(&"#zz102030".to_string()), Some((0x10, 0x20, 0x30)));
}

#[test]
fn parse_hex_short_input() {
    assert_eq!(parse_hex(&"#ff00".to_string()), None);
}
