use milton::color::Color;
use milton::pattern::{parse_pattern, read_line, PatternError};

#[test]
fn two_frames_parse_with_one_channel_each() {
    let p = parse_pattern(b"F0 L0 255 0 0\nF1 L0 0 255 0\n", 0, 0).unwrap();
    assert_eq!(p.len(), 2);
    assert_eq!(p.color(0, 0), Some(Color::rgb(255, 0, 0)));
    assert_eq!(p.color(1, 0), Some(Color::rgb(0, 255, 0)));
    assert_eq!(p.color(2, 0), None);
}

#[test]
fn later_line_wins() {
    let p = parse_pattern(b"F3 L2 1 2 3\nF3 L2 4 5 6\n", 0, 0).unwrap();
    assert_eq!(p.color(3, 2), Some(Color::rgb(4, 5, 6)));
}

#[test]
fn missing_channels_are_filled_black() {
    let p = parse_pattern(b"F0 L1 9 9 9", 0, 3).unwrap();
    assert_eq!(p.len(), 1);
    assert_eq!(p.color(0, 0), Some(Color::rgb(0, 0, 0)));
    assert_eq!(p.color(0, 1), Some(Color::rgb(9, 9, 9)));
    assert_eq!(p.color(0, 3), Some(Color::rgb(0, 0, 0)));
    assert_eq!(p.color(0, 4), None);
}

#[test]
fn malformed_lines_are_skipped() {
    let text = b"# a comment\n\nF0 L0 1 2\nX0 L0 1 2 3\nF0 L0 1 2 300\nF0 Lx 1 2 3\nF256 L0 1 2 3\nF0 L0 a 2 3\nF1 L5 7 8 9\r\n";
    let p = parse_pattern(text, 5, 5).unwrap();
    assert_eq!(p.len(), 1);
    assert_eq!(p.color(1, 5), Some(Color::rgb(7, 8, 9)));
    assert_eq!(p.color(0, 0), None);
}

#[test]
fn fields_may_be_separated_by_several_blanks() {
    let p = parse_pattern(b"  F2\tL3   10 20 30  ", 3, 3).unwrap();
    assert_eq!(p.color(2, 3), Some(Color::rgb(10, 20, 30)));
}

#[test]
fn empty_text_gives_empty_pattern() {
    let p = parse_pattern(b"", 0, 9).unwrap();
    assert_eq!(p.len(), 0);
}

#[test]
fn bytes_that_are_not_text_are_refused() {
    assert_eq!(parse_pattern(&[0x46, 0xff, 0xfe], 0, 0).err(), Some(PatternError::NotText));
}

#[test]
fn read_line_reads_one_assignment() {
    let r = read_line(b"F7 L+8 001 2 3").unwrap();
    assert_eq!(r.frame, 7);
    assert_eq!(r.channel, 8);
    assert_eq!(r.color, Color::rgb(1, 2, 3));
    assert!(read_line(b"F7 L8 1 2").is_none());
}
