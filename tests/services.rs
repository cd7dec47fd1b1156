use milton::color::Color;
use milton::cursor::Message;
use milton::oauth::{AuthZeroConfig, UserRole};
use milton::request::{LedState, Response, StateRequest, StateRequestParseError};
use milton::service::{respond, Claims, EventResponse, RedisConfig, StateOperation};
use milton::webhook::{signal_for_topic, HookPayload};

fn config() -> AuthZeroConfig {
    AuthZeroConfig {
        auth_client_id: "client".to_string(),
        auth_client_secret: "secret".to_string(),
        management_client_id: "mclient".to_string(),
        management_client_secret: "msecret".to_string(),
        redirect_uri: "https://example.com/back".to_string(),
        domain: "https://tenant.example.com".to_string(),
    }
}

#[test]
fn admin_roles_are_recognized() {
    assert!(UserRole::new("1".to_string(), "admin".to_string()).is_admin());
    assert!(UserRole::new("1".to_string(), "milton:administrator".to_string()).is_admin());
    assert!(!UserRole::new("1".to_string(), "superadmin".to_string()).is_admin());
    assert!(!UserRole::new("1".to_string(), "adm".to_string()).is_admin());
    assert!(!UserRole::new("1".to_string(), "".to_string()).is_admin());
}

#[test]
fn token_uri_and_payloads() {
    let c = config();
    assert_eq!(c.token_uri(), "https://tenant.example.com/oauth/token");
    let p = c.auth_token_payload(&"abc".to_string());
    assert_eq!(p.grant_type, "authorization_code");
    assert_eq!(p.client_id, "client");
    assert_eq!(p.code, Some("abc".to_string()));
    assert_eq!(p.redirect_uri, Some("https://example.com/back".to_string()));
    let m = c.manage_token_payload();
    assert_eq!(m.grant_type, "client_credentials");
    assert_eq!(m.client_secret, "msecret");
    assert_eq!(m.audience, Some("https://tenant.example.com/api/v2/".to_string()));
}

#[test]
fn state_requests_parse() {
    assert_eq!(StateRequest::from_bytes(b"on"), Some(StateRequest::On));
    assert_eq!(StateRequest::from_bytes(b"GREEN"), Some(StateRequest::Green));
    assert_eq!(StateRequest::from_bytes(b"Blue"), Some(StateRequest::Blue));
    assert_eq!(StateRequest::from_bytes(b"rEd"), None);
    assert_eq!(StateRequest::from_bytes(&[0xff]), None);
    assert_eq!(StateRequest::from_text("purple"), Err(StateRequestParseError::Unrecognized));
    assert_eq!(StateRequest::Red.color(), Color::rgb(255, 0, 0));
    assert_eq!(Response::Roger.text(), "ok\r\n");
    assert_eq!(Response::Failed.text(), "failed\r\n");
}

#[test]
fn hook_payload_qualifies_only_when_complete() {
    let mut full = HookPayload {
        device_identifier: Some("printer".to_string()),
        topic: Some("Print Done".to_string()),
        message: Some("done".to_string()),
        state: None,
        progress: None,
    };
    let q = full.qualified().unwrap();
    assert_eq!(q.topic, "Print Done");
    assert_eq!(q.device_identifier, "printer");
    assert!(full.topic.is_none());
    let mut partial = HookPayload {
        device_identifier: None,
        topic: Some("x".to_string()),
        message: Some("y".to_string()),
        state: None,
        progress: None,
    };
    assert!(partial.qualified().is_none());
    assert!(partial.topic.is_none());
}

#[test]
fn topics_get_signals() {
    assert_eq!(signal_for_topic("Print Started"), Message::Immediate(Color::rgb(0, 255, 0), None));
    assert_eq!(signal_for_topic("Error"), Message::Immediate(Color::rgb(255, 255, 100), None));
}

#[test]
fn session_claims_and_store_address() {
    let c = Claims::for_sub("u".to_string(), "t".to_string(), 1000);
    assert_eq!(c.exp, 4600);
    assert_eq!(Claims::for_sub("u".to_string(), "t".to_string(), usize::MAX).exp, usize::MAX);
    let r = RedisConfig { host: "localhost".to_string(), port: "6379".to_string(), password: "p".to_string() };
    assert_eq!(r.address(), "localhost:6379");
}

#[test]
fn packets_are_framed_and_answered() {
    let mut state = LedState::Empty;
    for b in b"red" {
        assert_eq!(state.feed(*b), None);
    }
    assert_eq!(state.feed(b':'), Some(Response::Roger));
    assert!(matches!(state, LedState::Requested(StateRequest::Red)));
    assert_eq!(state.display(), Some(Color::rgb(255, 0, 0)));
    state.shown(true);
    assert!(matches!(state, LedState::Empty));
    for b in b"pink\n" {
        let _ = state.feed(*b);
    }
    assert!(matches!(state, LedState::Failed(0)));
    assert_eq!(state.display(), Some(Color::rgb(255, 0, 0)));
    state.shown(true);
    assert!(matches!(state, LedState::Failed(1)));
    assert_eq!(state.display(), Some(Color::rgb(0, 0, 0)));
}

#[test]
fn packet_timeout_and_overflow_fail() {
    let mut state = LedState::Empty;
    state.feed(b'o');
    state.timeout();
    assert!(matches!(state, LedState::Failed(0)));
    state.timeout();
    assert!(matches!(state, LedState::Empty));
    for _ in 0..128 {
        state.feed(b'x');
    }
    assert!(matches!(state, LedState::Requesting(_)));
    state.feed(b'x');
    assert!(matches!(state, LedState::Failed(0)));
    let mut blink = LedState::Failed(101);
    blink.shown(false);
    assert!(matches!(blink, LedState::Failed(1)));
}

#[test]
fn assistant_requests_are_answered() {
    let set_on = StateOperation::SetState(Some("1".to_string()));
    assert_eq!(respond(&set_on, false), Some((true, EventResponse::SetState(true))));
    let set_off = StateOperation::SetState(Some("0".to_string()));
    assert_eq!(respond(&set_off, true), Some((false, EventResponse::SetState(false))));
    let set_odd = StateOperation::SetState(Some("2".to_string()));
    assert_eq!(respond(&set_odd, true), Some((true, EventResponse::SetState(true))));
    let get = StateOperation::GetState(Some("".to_string()));
    assert_eq!(respond(&get, false), Some((false, EventResponse::GetState(false))));
    assert_eq!(respond(&StateOperation::GetState(None), true), None);
}

#[test]
fn state_requests_parse_through_from_str() {
    assert_eq!("OFF".parse::<StateRequest>(), Ok(StateRequest::Off));
    assert_eq!("nope".parse::<StateRequest>(), Err(StateRequestParseError::Unrecognized));
}
