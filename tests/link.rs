use milton::link::{
    BasicColor, Command, DeviceLink, LightConfiguration, LinkAction, LinkEvent, Phase,
};

fn configured() -> DeviceLink {
    let mut link = DeviceLink::new();
    let config = LightConfiguration { device: "/dev/ttyACM0".to_string(), baud: 115200 };
    assert!(matches!(link.step(LinkEvent::Command(Command::Configure(config))), LinkAction::Nothing));
    link
}

fn connect_at(link: &mut DeviceLink, now: u64) {
    match link.step(LinkEvent::Tick(now)) {
        LinkAction::Connect(c) => assert_eq!(c.device, "/dev/ttyACM0"),
        other => panic!("expected an attempt, got {:?}", other),
    }
    link.step(LinkEvent::Opened(true));
    assert!(link.is_open());
}

#[test]
fn write_failure_waits_for_cooldown_then_reconnects_once() {
    let mut link = configured();
    connect_at(&mut link, 0);
    assert!(matches!(link.step(LinkEvent::Command(Command::On)), LinkAction::Write("on:")));
    link.step(LinkEvent::WriteFailed(100));
    assert_eq!(link.phase(), Phase::Absent);
    for now in [110u64, 1000, 5000, 5099] {
        assert!(matches!(link.step(LinkEvent::Tick(now)), LinkAction::Nothing));
        assert!(matches!(link.step(LinkEvent::Command(Command::Off)), LinkAction::Nothing));
    }
    connect_at(&mut link, 5100);
    assert!(matches!(link.step(LinkEvent::Tick(5101)), LinkAction::Nothing));
    assert!(matches!(link.step(LinkEvent::Command(Command::Off)), LinkAction::Write("off:")));
}

#[test]
fn failure_long_after_connecting_still_holds_off() {
    let mut link = configured();
    connect_at(&mut link, 0);
    link.step(LinkEvent::WriteFailed(10_000));
    assert!(matches!(link.step(LinkEvent::Tick(10_001)), LinkAction::Nothing));
    assert!(matches!(link.step(LinkEvent::Tick(14_999)), LinkAction::Nothing));
    assert!(matches!(link.step(LinkEvent::Command(Command::On)), LinkAction::Nothing));
    connect_at(&mut link, 15_000);
}

#[test]
fn read_failure_holds_off_but_timeout_does_not() {
    let mut link = configured();
    connect_at(&mut link, 0);
    link.step(LinkEvent::ReadFailed(true, 20_000));
    assert!(link.is_open());
    link.step(LinkEvent::ReadFailed(false, 20_000));
    assert!(!link.is_open());
    assert!(matches!(link.step(LinkEvent::Tick(24_999)), LinkAction::Nothing));
    connect_at(&mut link, 25_000);
}

#[test]
fn failed_attempt_is_not_retried_within_cooldown() {
    let mut link = configured();
    assert!(matches!(link.step(LinkEvent::Tick(10)), LinkAction::Connect(_)));
    link.step(LinkEvent::Opened(false));
    assert!(matches!(link.step(LinkEvent::Tick(4000)), LinkAction::Nothing));
    assert!(matches!(link.step(LinkEvent::Tick(5010)), LinkAction::Connect(_)));
}

#[test]
fn new_configuration_connects_immediately() {
    let mut link = configured();
    connect_at(&mut link, 0);
    let config = LightConfiguration { device: "/dev/ttyACM0".to_string(), baud: 9600 };
    link.step(LinkEvent::Command(Command::Configure(config)));
    assert!(!link.is_open());
    connect_at(&mut link, 1);
}

#[test]
fn nothing_happens_without_configuration() {
    let mut link = DeviceLink::new();
    assert!(matches!(link.step(LinkEvent::Tick(100_000)), LinkAction::Nothing));
    assert!(matches!(link.step(LinkEvent::Command(Command::On)), LinkAction::Nothing));
}

#[test]
fn commands_have_wire_text() {
    assert_eq!(Command::On.wire(), Some("on:"));
    assert_eq!(Command::Off.wire(), Some("off:"));
    assert_eq!(Command::BasicColor(BasicColor::Red).wire(), Some("red:"));
    assert_eq!(Command::BasicColor(BasicColor::Green).wire(), Some("green:"));
    assert_eq!(Command::BasicColor(BasicColor::Blue).wire(), Some("blue:"));
    let config = LightConfiguration { device: "x".to_string(), baud: 1 };
    assert_eq!(Command::Configure(config).wire(), None);
    assert_eq!(BasicColor::Green.name(), "green");
}
