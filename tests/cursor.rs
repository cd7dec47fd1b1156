use milton::color::Color;
use milton::cursor::{Cursor, Message};
use milton::heart::HeartControl;
use milton::pattern::parse_pattern;

#[test]
fn two_frame_pattern_plays_and_wraps() {
    let mut cursor = Cursor::new();
    cursor.seek(parse_pattern(b"F0 L0 255 0 0\nF1 L0 0 255 0\n", 0, 0).unwrap());
    let red = Message::Immediate(Color::rgb(255, 0, 0), Some(0));
    let green = Message::Immediate(Color::rgb(0, 255, 0), Some(0));
    assert_eq!(cursor.messages(), vec![red]);
    cursor.inc();
    assert_eq!(cursor.messages(), vec![green]);
    cursor.inc();
    assert_eq!(cursor.messages(), vec![red]);
}

#[test]
fn stop_then_start_without_pattern() {
    let mut cursor = Cursor::default();
    assert_eq!(cursor.handle(HeartControl::Stop), None);
    assert_eq!(cursor.messages(), vec![Message::Off]);
    cursor.inc();
    assert_eq!(cursor.handle(HeartControl::Start), None);
    assert_eq!(cursor.frame_index(), 0);
    assert!(cursor.is_running());
    assert_eq!(cursor.messages(), vec![]);
}

#[test]
fn stopping_sends_off_exactly_once() {
    let mut cursor = Cursor::new();
    cursor.seek(parse_pattern(b"F0 L1 1 1 1", 0, 1).unwrap());
    cursor.inc();
    cursor.inc();
    cursor.stop();
    assert_eq!(cursor.messages(), vec![Message::Off]);
    for _ in 0..10 {
        cursor.inc();
        assert_eq!(cursor.messages(), vec![]);
    }
}

#[test]
fn start_after_stop_rewinds() {
    let mut cursor = Cursor::new();
    cursor.inc();
    cursor.inc();
    cursor.inc();
    assert_eq!(cursor.frame_index(), 3);
    cursor.stop();
    cursor.inc();
    cursor.start();
    assert_eq!(cursor.frame_index(), 0);
}

#[test]
fn start_while_running_keeps_position() {
    let mut cursor = Cursor::new();
    cursor.inc();
    cursor.start();
    assert_eq!(cursor.frame_index(), 1);
}

#[test]
fn empty_pattern_wraps_after_255() {
    let mut cursor = Cursor::new();
    for _ in 0..255 {
        assert_eq!(cursor.messages(), vec![]);
        cursor.inc();
    }
    assert_eq!(cursor.frame_index(), 255);
    cursor.inc();
    assert_eq!(cursor.frame_index(), 0);
}

#[test]
fn frame_messages_come_in_channel_order() {
    let mut cursor = Cursor::new();
    cursor.seek(parse_pattern(b"F0 L2 2 2 2\nF0 L0 0 0 0\n", 0, 1).unwrap());
    assert_eq!(
        cursor.messages(),
        vec![
            Message::Immediate(Color::rgb(0, 0, 0), Some(0)),
            Message::Immediate(Color::rgb(0, 0, 0), Some(1)),
            Message::Immediate(Color::rgb(2, 2, 2), Some(2)),
        ]
    );
}

#[test]
fn gap_in_frame_numbers_plays_nothing() {
    let mut cursor = Cursor::new();
    cursor.seek(parse_pattern(b"F0 L0 1 1 1\nF5 L0 2 2 2\n", 0, 0).unwrap());
    cursor.inc();
    assert_eq!(cursor.messages(), vec![]);
    cursor.inc();
    assert_eq!(cursor.messages(), vec![Message::Immediate(Color::rgb(1, 1, 1), Some(0))]);
}

#[test]
fn load_directive_hands_back_the_name() {
    let mut cursor = Cursor::new();
    cursor.stop();
    let name = cursor.handle(HeartControl::Load("init.txt".to_string()));
    assert_eq!(name, Some("init.txt".to_string()));
    assert!(!cursor.is_running());
    assert!(cursor.load(b"F0 L0 9 9 9", 0, 0).is_ok());
    assert!(cursor.is_running());
    assert_eq!(cursor.frame_index(), 0);
    assert_eq!(cursor.messages(), vec![Message::Immediate(Color::rgb(9, 9, 9), Some(0))]);
}

#[test]
fn load_of_non_text_keeps_pattern() {
    let mut cursor = Cursor::new();
    cursor.seek(parse_pattern(b"F0 L0 9 9 9", 0, 0).unwrap());
    assert!(cursor.load(&[0xc3, 0x28], 0, 0).is_err());
    assert_eq!(cursor.pattern().len(), 1);
}

#[test]
fn failed_send_stops_without_repeating() {
    let mut cursor = Cursor::new();
    cursor.seek(parse_pattern(b"F0 L0 9 9 9", 0, 0).unwrap());
    cursor.end_tick(true);
    assert!(!cursor.is_running());
    assert_eq!(cursor.messages(), vec![]);
    cursor.end_tick(false);
    assert_eq!(cursor.messages(), vec![]);
}

#[test]
fn successful_tick_advances() {
    let mut cursor = Cursor::new();
    cursor.end_tick(false);
    assert_eq!(cursor.frame_index(), 1);
    assert!(cursor.is_running());
}
