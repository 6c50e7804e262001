use dstatus::config::{Button, Config};
use dstatus::error::{IpcError, ProtocolError};
use dstatus::rich_presence::{
    build_activity, check_handshake_reply, Hello, RichPresence, SetActivity, SET_ACTIVITY_CMD,
};
use dstatus::stream_manager::{decode_message, FieldValue, IncomingMessage, RawMessage};

fn text(s: &str) -> FieldValue {
    FieldValue::Text(s.to_string())
}

fn empty_raw() -> RawMessage {
    RawMessage {
        code: FieldValue::Absent,
        message: FieldValue::Absent,
        cmd: FieldValue::Absent,
        data: None,
        evt: FieldValue::Absent,
        nonce: FieldValue::Absent,
    }
}

fn response() -> IncomingMessage {
    IncomingMessage::Response {
        cmd: "DISPATCH".to_string(),
        data: "{}".to_string(),
        evt: Some("READY".to_string()),
        nonce: None,
    }
}

fn button(label: &str, url: &str) -> Button {
    Button { label: label.to_string(), url: url.to_string() }
}

fn sample_config() -> Config {
    let mut c = Config::default();
    c.client_id = "123456".to_string();
    c.details = "Editing".to_string();
    c.state = "main.rs".to_string();
    c.large_image = "logo".to_string();
    c.large_text = "Logo".to_string();
    c.small_image = "dot".to_string();
    c.small_text = "Dot".to_string();
    c.party_size = 2;
    c.max_party_size = 5;
    c
}

fn connected(config: Config) -> RichPresence {
    let mut rp = RichPresence::new(config);
    rp.stream_manager.connect(&vec!["discord-ipc-0".to_string()]);
    rp.stream_manager.report_attempt(true);
    rp
}

#[test]
fn decodes_response_shape() {
    let mut raw = empty_raw();
    raw.cmd = text("DISPATCH");
    raw.data = Some(r#"{"v":1}"#.to_string());
    raw.evt = text("READY");
    raw.nonce = FieldValue::Null;
    match decode_message(raw).unwrap() {
        IncomingMessage::Response { cmd, data, evt, nonce } => {
            assert_eq!(cmd, "DISPATCH");
            assert_eq!(data, r#"{"v":1}"#);
            assert_eq!(evt, Some("READY".to_string()));
            assert_eq!(nonce, None);
        }
        IncomingMessage::Error { .. } => panic!("expected a response"),
    }
}

#[test]
fn decodes_error_shape_by_code_member() {
    let mut raw = empty_raw();
    raw.code = FieldValue::Unsigned(4000);
    raw.message = text("Invalid Client ID");
    raw.cmd = text("DISPATCH");
    raw.data = Some("null".to_string());
    match decode_message(raw).unwrap() {
        IncomingMessage::Error { code, message } => {
            assert_eq!(code, 4000);
            assert_eq!(message, "Invalid Client ID");
        }
        IncomingMessage::Response { .. } => panic!("expected an error"),
    }
}

#[test]
fn malformed_messages() {
    assert!(matches!(decode_message(empty_raw()), Err(IpcError::Protocol(ProtocolError::MalformedMessage))));
    let mut too_big = empty_raw();
    too_big.code = FieldValue::Unsigned(1 << 32);
    too_big.message = text("x");
    assert!(matches!(decode_message(too_big), Err(IpcError::Protocol(ProtocolError::MalformedMessage))));
    let mut no_message = empty_raw();
    no_message.code = FieldValue::Unsigned(1);
    assert!(matches!(decode_message(no_message), Err(IpcError::Protocol(ProtocolError::MalformedMessage))));
    let mut text_code = empty_raw();
    text_code.code = text("1");
    text_code.message = text("x");
    assert!(matches!(decode_message(text_code), Err(IpcError::Protocol(ProtocolError::MalformedMessage))));
    let mut no_data = empty_raw();
    no_data.cmd = text("DISPATCH");
    assert!(matches!(decode_message(no_data), Err(IpcError::Protocol(ProtocolError::MalformedMessage))));
    let mut bad_evt = empty_raw();
    bad_evt.cmd = text("DISPATCH");
    bad_evt.data = Some("{}".to_string());
    bad_evt.evt = FieldValue::Unsigned(3);
    assert!(matches!(decode_message(bad_evt), Err(IpcError::Protocol(ProtocolError::MalformedMessage))));
    let mut numeric_cmd = empty_raw();
    numeric_cmd.cmd = FieldValue::Other;
    numeric_cmd.data = Some("{}".to_string());
    assert!(matches!(decode_message(numeric_cmd), Err(IpcError::Protocol(ProtocolError::MalformedMessage))));
}

#[test]
fn handshake_reply_with_other_opcode_is_a_protocol_error() {
    assert_eq!(
        check_handshake_reply(2, response()),
        Err(IpcError::Protocol(ProtocolError::UnexpectedOpcode(2)))
    );
    assert_eq!(
        check_handshake_reply(0, response()),
        Err(IpcError::Protocol(ProtocolError::UnexpectedOpcode(0)))
    );
}

#[test]
fn handshake_reply_error_is_a_remote_error() {
    let reply = IncomingMessage::Error { code: 4000, message: "Invalid Client ID".to_string() };
    assert_eq!(
        check_handshake_reply(1, reply),
        Err(IpcError::Remote { code: 4000, message: "Invalid Client ID".to_string() })
    );
}

#[test]
fn handshake_reply_response_is_accepted() {
    assert_eq!(check_handshake_reply(1, response()), Ok(()));
}

#[test]
fn hello_carries_version_and_client() {
    let hello = Hello::new("123456");
    assert_eq!(hello.v, 1);
    assert_eq!(hello.client_id, "123456");
    let rp = RichPresence::new(sample_config());
    assert_eq!(rp.hello().client_id, "123456");
}

#[test]
fn activity_copies_the_configuration() {
    let a = build_activity(&sample_config());
    assert_eq!(a.state.as_deref(), Some("main.rs"));
    assert_eq!(a.details.as_deref(), Some("Editing"));
    let assets = a.assets.unwrap();
    assert_eq!(assets.large_image.as_deref(), Some("logo"));
    assert_eq!(assets.large_text.as_deref(), Some("Logo"));
    assert_eq!(assets.small_image.as_deref(), Some("dot"));
    assert_eq!(assets.small_text.as_deref(), Some("Dot"));
    let party = a.party.unwrap();
    assert_eq!(party.size, Some([2, 5]));
    assert!(party.id.is_none());
    assert!(a.timestamps.is_none());
    assert!(a.secrets.is_none());
    assert_eq!(a.instance, Some(false));
}

#[test]
fn activity_buttons_absent_or_empty_are_omitted() {
    let mut none = sample_config();
    none.buttons = None;
    assert!(build_activity(&none).buttons.is_none());
    let mut empty = sample_config();
    empty.buttons = Some(Vec::new());
    assert!(build_activity(&empty).buttons.is_none());
}

#[test]
fn activity_buttons_are_sent_as_configured() {
    let mut c = sample_config();
    c.buttons = Some(vec![button("Site", "https://example.com")]);
    let sent = build_activity(&c).buttons.unwrap();
    assert_eq!(sent.len(), 1);
    assert_eq!(sent[0].label, "Site");
    assert_eq!(sent[0].url, "https://example.com");
    c.buttons = Some(vec![button("A", "https://a.example"), button("B", "https://b.example")]);
    let sent = build_activity(&c).buttons.unwrap();
    let pairs: Vec<(String, String)> = sent.into_iter().map(|b| (b.label, b.url)).collect();
    assert_eq!(
        pairs,
        vec![
            ("A".to_string(), "https://a.example".to_string()),
            ("B".to_string(), "https://b.example".to_string())
        ]
    );
}

fn summary(e: &SetActivity) -> String {
    let a = &e.args.activity;
    format!(
        "{}|{}|{:?}|{:?}|{:?}|{:?}|{:?}|{:?}",
        e.cmd,
        e.args.pid,
        a.state,
        a.details,
        a.assets.as_ref().map(|x| (&x.large_image, &x.large_text, &x.small_image, &x.small_text)),
        a.party.as_ref().map(|p| (&p.id, p.size)),
        a.buttons.as_ref().map(|b| b.iter().map(|x| (&x.label, &x.url)).collect::<Vec<_>>()),
        a.instance
    )
}

#[test]
fn set_activity_twice_differs_only_in_nonce() {
    let mut c = sample_config();
    c.buttons = Some(vec![button("Site", "https://example.com")]);
    let rp = connected(c);
    let first = rp.set_activity(4242).unwrap();
    let second = rp.set_activity(4242).unwrap();
    assert_eq!(summary(&first), summary(&second));
    assert_eq!(first.cmd, SET_ACTIVITY_CMD);
    assert_eq!(first.cmd, "SET_ACTIVITY");
    assert_eq!(first.args.pid, 4242);
    assert_ne!(first.nonce, second.nonce);
    for nonce in [&first.nonce, &second.nonce] {
        assert_eq!(nonce.len(), 36);
        let dashes: Vec<usize> =
            nonce.char_indices().filter(|(_, ch)| *ch == '-').map(|(i, _)| i).collect();
        assert_eq!(dashes, vec![8, 13, 18, 23]);
    }
}

#[test]
fn set_activity_needs_a_connection() {
    let rp = RichPresence::new(sample_config());
    assert!(matches!(rp.set_activity(1), Err(IpcError::NotConnected)));
}

#[test]
fn update_config_takes_effect_on_next_update() {
    let mut rp = connected(sample_config());
    let before = rp.activity_envelope(7, "n".to_string());
    assert_eq!(before.args.activity.state.as_deref(), Some("main.rs"));
    let mut next = sample_config();
    next.state = "lib.rs".to_string();
    rp.update_config(next);
    let after = rp.set_activity(7).unwrap();
    assert_eq!(after.args.activity.state.as_deref(), Some("lib.rs"));
    assert!(rp.stream_manager.is_connected());
}
