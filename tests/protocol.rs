use galene_gamepad::controller::{
    chat_lookup, command_steps, gamepad_capabilities, lookup_command, press_release, ControlEvent,
    DeviceStep, ABS_HAT0X, ABS_HAT0Y, BTN_EAST, BTN_NORTH, BTN_SELECT, BTN_SOUTH, BTN_START,
    BTN_TL, BTN_TR, BTN_WEST, EV_ABS, EV_KEY, PRESS_MS,
};
use galene_gamepad::protocol::{
    decode_message, dispatch, encode_handshake, encode_join, encode_pong, handle_message,
    ProtocolError, Response, ServerMessage,
};
use galene_gamepad::session::{connect, ConnectError, Phase};

fn press(event_type: u16, code: u16, value: i32) -> Response {
    Response::Press(ControlEvent { event_type, code, value, duration_ms: 300 })
}

#[test]
fn chat_lookup_ignores_case() {
    let upper = chat_lookup("A");
    let lower = chat_lookup("a");
    assert_eq!(upper, lower);
    assert_eq!(
        upper,
        Some(ControlEvent { event_type: EV_KEY, code: BTN_SOUTH, value: 1, duration_ms: 300 })
    );
    assert_eq!(chat_lookup("StArT"), chat_lookup("start"));
    assert_eq!(chat_lookup("SELECT").map(|c| c.code), Some(BTN_SELECT));
}

#[test]
fn command_table_is_complete() {
    let table: [(&str, u16, u16, i32); 12] = [
        ("z", EV_ABS, ABS_HAT0Y, -1),
        ("q", EV_ABS, ABS_HAT0X, -1),
        ("s", EV_ABS, ABS_HAT0Y, 1),
        ("d", EV_ABS, ABS_HAT0X, 1),
        ("a", EV_KEY, BTN_SOUTH, 1),
        ("b", EV_KEY, BTN_EAST, 1),
        ("x", EV_KEY, BTN_NORTH, 1),
        ("y", EV_KEY, BTN_WEST, 1),
        ("start", EV_KEY, BTN_START, 1),
        ("select", EV_KEY, BTN_SELECT, 1),
        ("tl", EV_KEY, BTN_TL, 1),
        ("tr", EV_KEY, BTN_TR, 1),
    ];
    for (token, event_type, code, value) in table {
        assert_eq!(
            lookup_command(token),
            Some(ControlEvent { event_type, code, value, duration_ms: PRESS_MS })
        );
    }
    assert_eq!(lookup_command("A"), None);
}

#[test]
fn codes_agree_with_evdev() {
    assert_eq!(EV_KEY, evdev::EventType::KEY.0);
    assert_eq!(EV_ABS, evdev::EventType::ABSOLUTE.0);
    assert_eq!(BTN_SOUTH, evdev::Key::BTN_SOUTH.code());
    assert_eq!(BTN_EAST, evdev::Key::BTN_EAST.code());
    assert_eq!(BTN_NORTH, evdev::Key::BTN_NORTH.code());
    assert_eq!(BTN_WEST, evdev::Key::BTN_WEST.code());
    assert_eq!(BTN_TL, evdev::Key::BTN_TL.code());
    assert_eq!(BTN_TR, evdev::Key::BTN_TR.code());
    assert_eq!(BTN_SELECT, evdev::Key::BTN_SELECT.code());
    assert_eq!(BTN_START, evdev::Key::BTN_START.code());
    assert_eq!(ABS_HAT0X, evdev::AbsoluteAxisType::ABS_HAT0X.0);
    assert_eq!(ABS_HAT0Y, evdev::AbsoluteAxisType::ABS_HAT0Y.0);
}

#[test]
fn capabilities_match_evdev() {
    let caps = gamepad_capabilities();
    let keys: Vec<u16> = [
        evdev::Key::BTN_SOUTH,
        evdev::Key::BTN_EAST,
        evdev::Key::BTN_NORTH,
        evdev::Key::BTN_WEST,
        evdev::Key::BTN_TL,
        evdev::Key::BTN_TR,
        evdev::Key::BTN_SELECT,
        evdev::Key::BTN_START,
        evdev::Key::BTN_MODE,
        evdev::Key::BTN_THUMBL,
        evdev::Key::BTN_THUMBR,
    ]
    .iter()
    .map(|k| k.code())
    .collect();
    assert_eq!(caps.keys, keys);
    let ff: Vec<u16> = [
        evdev::FFEffectType::FF_RUMBLE,
        evdev::FFEffectType::FF_PERIODIC,
        evdev::FFEffectType::FF_SQUARE,
        evdev::FFEffectType::FF_TRIANGLE,
        evdev::FFEffectType::FF_SINE,
        evdev::FFEffectType::FF_GAIN,
    ]
    .iter()
    .map(|f| f.0)
    .collect();
    assert_eq!(caps.ff_effects, ff);
    assert_eq!(caps.ff_effects_max, 16);
    assert_eq!(caps.bus_type, evdev::BusType::BUS_USB.0);
    assert_eq!((caps.vendor, caps.product, caps.version), (0x45e, 0x28e, 0x114));
    let axes: Vec<u16> = caps.axes.iter().map(|a| a.code).collect();
    let expected: Vec<u16> = [
        evdev::AbsoluteAxisType::ABS_X,
        evdev::AbsoluteAxisType::ABS_Y,
        evdev::AbsoluteAxisType::ABS_RX,
        evdev::AbsoluteAxisType::ABS_RY,
        evdev::AbsoluteAxisType::ABS_Z,
        evdev::AbsoluteAxisType::ABS_RZ,
        evdev::AbsoluteAxisType::ABS_HAT0X,
        evdev::AbsoluteAxisType::ABS_HAT0Y,
    ]
    .iter()
    .map(|a| a.0)
    .collect();
    assert_eq!(axes, expected);
    assert_eq!((caps.axes[0].minimum, caps.axes[0].maximum), (-32768, 32767));
    assert_eq!((caps.axes[0].fuzz, caps.axes[0].flat), (16, 128));
    assert_eq!((caps.axes[4].minimum, caps.axes[4].maximum), (0, 255));
    assert_eq!((caps.axes[7].minimum, caps.axes[7].maximum), (-1, 1));
}

#[test]
fn unknown_chat_tokens_do_nothing() {
    for token in ["zz", "", "42"] {
        let text = format!("{{\"type\":\"chat\",\"value\":\"{token}\"}}");
        assert_eq!(handle_message(&text).unwrap(), Response::Idle);
    }
    assert_eq!(handle_message("{\"type\":\"chat\"}").unwrap(), Response::Idle);
    assert_eq!(handle_message("{\"type\":\"chat\",\"value\":\"a b\"}").unwrap(), Response::Idle);
}

#[test]
fn press_release_emits_two_events() {
    for delay in [0u64, 300, u64::MAX] {
        assert_eq!(
            press_release(EV_KEY, BTN_SOUTH, 1, delay),
            vec![
                DeviceStep::Emit { event_type: EV_KEY, code: BTN_SOUTH, value: 1 },
                DeviceStep::Wait { ms: delay },
                DeviceStep::Emit { event_type: EV_KEY, code: BTN_SOUTH, value: 0 },
            ]
        );
    }
    let steps = press_release(EV_ABS, ABS_HAT0X, -1, 300);
    assert_eq!(steps[0], DeviceStep::Emit { event_type: EV_ABS, code: ABS_HAT0X, value: -1 });
    assert_eq!(steps[2], DeviceStep::Emit { event_type: EV_ABS, code: ABS_HAT0X, value: 0 });
}

#[test]
fn ping_gets_one_pong() {
    assert_eq!(handle_message("{\"type\":\"ping\"}").unwrap(), Response::Pong);
    assert_eq!(encode_pong(), "{\"type\":\"pong\"}");
}

#[test]
fn server_error_carries_its_text() {
    let r = handle_message("{\"type\":\"usermessage\",\"kind\":\"error\",\"value\":\"bad group\"}");
    match r {
        Err(ProtocolError::Server(text)) => assert_eq!(text, "bad group"),
        other => panic!("unexpected {other:?}"),
    }
    let r = handle_message("{\"type\":\"usermessage\",\"kind\":\"warning\",\"value\":\"x\"}");
    assert_eq!(r.unwrap(), Response::Idle);
}

#[test]
fn joined_records() {
    assert_eq!(handle_message("{\"type\":\"joined\",\"kind\":\"join\"}").unwrap(), Response::Idle);
    assert_eq!(handle_message("{\"type\":\"joined\",\"kind\":\"change\"}").unwrap(), Response::Idle);
    assert!(matches!(
        handle_message("{\"type\":\"joined\",\"kind\":\"reject\"}"),
        Err(ProtocolError::Join)
    ));
    assert!(matches!(handle_message("{\"type\":\"joined\"}"), Err(ProtocolError::Join)));
}

#[test]
fn media_and_unknown_records_are_ignored() {
    for t in ["abort", "answer", "ice", "renegotiate", "user", "chathistory", "close", "other"] {
        let text = format!("{{\"type\":\"{t}\"}}");
        assert_eq!(handle_message(&text).unwrap(), Response::Idle);
    }
    assert_eq!(handle_message("{}").unwrap(), Response::Idle);
    assert_eq!(handle_message("[1,2]").unwrap(), Response::Idle);
}

#[test]
fn malformed_text_is_a_decode_error() {
    assert!(matches!(handle_message("not json"), Err(ProtocolError::Decode)));
    assert!(matches!(handle_message(""), Err(ProtocolError::Decode)));
    assert!(matches!(decode_message("{\"type\":"), Err(ProtocolError::Decode)));
}

#[test]
fn decode_reads_string_members() {
    let m = decode_message("{\"type\":\"chat\",\"kind\":7,\"value\":\"Hi\"}").unwrap();
    assert_eq!((m.msg_type.as_str(), m.kind.as_str(), m.value.as_str()), ("chat", "", "Hi"));
}

#[test]
fn dispatch_decides_on_members() {
    let m = ServerMessage {
        msg_type: "chat".to_string(),
        kind: String::new(),
        value: "TR".to_string(),
    };
    assert_eq!(dispatch(&m).unwrap(), press(EV_KEY, BTN_TR, 1));
    let m = ServerMessage {
        msg_type: "chat".to_string(),
        kind: String::new(),
        value: "z".to_string(),
    };
    assert_eq!(dispatch(&m).unwrap(), press(EV_ABS, ABS_HAT0Y, -1));
}

#[test]
fn records_are_encoded_with_escapes() {
    assert_eq!(
        encode_join("room", "Virtual GamePad", "p\"w\\d"),
        "{\"group\":\"room\",\"kind\":\"join\",\"password\":\"p\\\"w\\\\d\",\"type\":\"join\",\"username\":\"Virtual GamePad\"}"
    );
    assert_eq!(
        encode_handshake("abc"),
        "{\"id\":\"abc\",\"type\":\"handshake\",\"version\":[\"1\"]}"
    );
}

#[test]
fn invalid_address_is_refused() {
    assert!(matches!(connect("not a url", 1, "g", "u", ""), Err(ConnectError::InvalidAddress)));
    assert!(connect("wss://galene.example.com/ws", 1, "g", "u", "").is_ok());
}

#[test]
fn handshake_reply_is_checked() {
    let mut s = connect("ws://localhost:8443/ws", 5, "g", "u", "p").unwrap();
    s.start_handshake();
    let r = s.finish_handshake("{\"type\":\"usermessage\",\"kind\":\"error\",\"value\":\"no\"}");
    assert_eq!(r, Err(ConnectError::Handshake));
    assert_eq!(s.phase, Phase::Closed);
}

#[test]
fn client_id_is_hyphenated_uuid() {
    let id: u128 = 0x0123_4567_89ab_cdef_fedc_ba98_7654_3210;
    let mut s = connect("ws://localhost/ws", id, "g", "u", "").unwrap();
    let hello = s.start_handshake();
    let expected = uuid::Uuid::from_u128(id).hyphenated().to_string();
    assert_eq!(expected, "01234567-89ab-cdef-fedc-ba9876543210");
    assert_eq!(hello, format!("{{\"id\":\"{expected}\",\"type\":\"handshake\",\"version\":[\"1\"]}}"));
}

#[test]
fn session_end_to_end() {
    let mut s = connect("ws://localhost:8443/ws", 7, "lobby", "Virtual GamePad", "").unwrap();
    assert_eq!(s.phase, Phase::Opening);
    let hello = s.start_handshake();
    assert!(hello.contains("\"type\":\"handshake\""));
    assert_eq!(s.phase, Phase::Handshaking);
    let join = s.finish_handshake("{\"type\":\"handshake\",\"version\":[\"1\"]}").unwrap();
    assert_eq!(
        join,
        "{\"group\":\"lobby\",\"kind\":\"join\",\"password\":\"\",\"type\":\"join\",\"username\":\"Virtual GamePad\"}"
    );
    assert_eq!(s.phase, Phase::Joined);
    let r = s.receive("{\"type\":\"chat\",\"value\":\"A\"}").unwrap();
    assert_eq!(r, press(EV_KEY, BTN_SOUTH, 1));
    let Response::Press(c) = r else { panic!("no press") };
    assert_eq!(
        command_steps(&c),
        vec![
            DeviceStep::Emit { event_type: EV_KEY, code: BTN_SOUTH, value: 1 },
            DeviceStep::Wait { ms: 300 },
            DeviceStep::Emit { event_type: EV_KEY, code: BTN_SOUTH, value: 0 },
        ]
    );
    assert!(matches!(s.receive("{\"type\":\"joined\",\"kind\":\"reject\"}"), Err(ProtocolError::Join)));
    assert_eq!(s.phase, Phase::Closed);
}
