use milton::color::Color;
use milton::control::{
    directive_for, effect_for, pattern_from_hex_frames, ColorAssignment, ControlError, ControlQuery,
};
use milton::heart::HeartControl;
use milton::link::{BasicColor, Command, Effects};

fn assign(hex: &str, ledn: u8) -> ColorAssignment {
    ColorAssignment { hex: hex.to_string(), ledn }
}

#[test]
fn modes_become_directives() {
    assert!(matches!(directive_for("off", None), Ok(Some(HeartControl::Stop))));
    assert!(matches!(directive_for("on", Some("x".to_string())), Ok(Some(HeartControl::Start))));
    match directive_for("load", Some("rainbow".to_string())) {
        Ok(Some(HeartControl::Load(name))) => assert_eq!(name, "rainbow"),
        other => panic!("unexpected {:?}", other),
    }
    assert!(matches!(directive_for("load", None), Err(ControlError::MissingName)));
    assert!(matches!(directive_for("dance", None), Ok(None)));
}

#[test]
fn direct_queries_become_light_effects() {
    assert!(matches!(effect_for(ControlQuery::State(true)), Effects::Lights(Command::On)));
    assert!(matches!(effect_for(ControlQuery::State(false)), Effects::Lights(Command::Off)));
    assert!(matches!(
        effect_for(ControlQuery::BasicColor(BasicColor::Blue)),
        Effects::Lights(Command::BasicColor(BasicColor::Blue))
    ));
}

#[test]
fn edited_frames_become_a_pattern() {
    let frames = vec![
        vec![assign("#ff0000", 0), assign("nonsense", 1), assign("#00ff00", 0)],
        vec![],
        vec![assign("#0000ff", 3)],
    ];
    let p = pattern_from_hex_frames(&frames);
    assert_eq!(p.len(), 3);
    assert_eq!(p.color(0, 0), Some(Color::rgb(0, 255, 0)));
    assert_eq!(p.color(0, 1), None);
    assert!(p.frame(1).is_some());
    assert_eq!(p.color(2, 3), Some(Color::rgb(0, 0, 255)));
}

#[test]
fn edited_frames_past_the_limit_are_dropped() {
    let frames: Vec<Vec<ColorAssignment>> = (0..300).map(|_| vec![assign("#010203", 0)]).collect();
    let p = pattern_from_hex_frames(&frames);
    assert_eq!(p.len(), 255);
    assert_eq!(p.color(254, 0), Some(Color::rgb(1, 2, 3)));
    assert!(p.frame(255).is_none());
}
