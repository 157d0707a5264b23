use gallery_hub::paths::normalize_paths;
use gallery_hub::websocket::{
    u64_to_decimal, socket_step, CloseCode, CloseReason, Message, SocketAction, error_close_reason,
};

fn strings(items: &[&str]) -> Vec<String> {
    items.iter().map(|s| s.to_string()).collect()
}

#[test]
fn close_codes_have_their_wire_numbers() {
    let cases = [
        (CloseCode::Normal, 1000u16),
        (CloseCode::Away, 1001),
        (CloseCode::Protocol, 1002),
        (CloseCode::Unsupported, 1003),
        (CloseCode::Abnormal, 1006),
        (CloseCode::Invalid, 1007),
        (CloseCode::Policy, 1008),
        (CloseCode::Size, 1009),
        (CloseCode::Extension, 1010),
        (CloseCode::Error, 1011),
        (CloseCode::Restart, 1012),
        (CloseCode::Again, 1013),
        (CloseCode::Tls, 1015),
        (CloseCode::Other(1234), 1234),
    ];
    for (code, num) in cases {
        assert_eq!(u16::from(code), num);
        assert_eq!(CloseCode::from(num), code);
    }
    assert_eq!(CloseCode::from(1005), CloseCode::Other(1005));
}

#[test]
fn close_reasons_carry_code_and_description() {
    let plain = CloseReason::from(CloseCode::Away);
    assert_eq!(plain.code, CloseCode::Away);
    assert_eq!(plain.description, None);

    let described = CloseReason::from((CloseCode::Size, "too big".to_string()));
    assert_eq!(described.code, CloseCode::Size);
    assert_eq!(described.description, Some("too big".to_string()));
}

#[test]
fn socket_step_echoes_text() {
    let action = socket_step(&Message::Text("hello there".to_string()));
    assert_eq!(
        action,
        SocketAction::SendText("Echo back text: hello there".to_string())
    );
}

#[test]
fn socket_step_acknowledges_binary_by_length() {
    let action = socket_step(&Message::Binary(vec![0u8; 12345]));
    assert_eq!(
        action,
        SocketAction::SendText("Received bytes of length: 12345".to_string())
    );
    let action = socket_step(&Message::Binary(Vec::new()));
    assert_eq!(
        action,
        SocketAction::SendText("Received bytes of length: 0".to_string())
    );
}

#[test]
fn socket_step_stops_on_close_and_ignores_keepalive() {
    assert_eq!(socket_step(&Message::Close(None)), SocketAction::Stop);
    assert_eq!(
        socket_step(&Message::Close(Some(CloseReason::from(CloseCode::Normal)))),
        SocketAction::Stop
    );
    assert_eq!(socket_step(&Message::Ping("p".to_string())), SocketAction::Ignore);
    assert_eq!(socket_step(&Message::Pong("p".to_string())), SocketAction::Ignore);
    assert_eq!(socket_step(&Message::Nop), SocketAction::Ignore);
}

#[test]
fn decimal_rendering_is_exact() {
    assert_eq!(u64_to_decimal(0), "0");
    assert_eq!(u64_to_decimal(7), "7");
    assert_eq!(u64_to_decimal(10), "10");
    assert_eq!(u64_to_decimal(909), "909");
    assert_eq!(u64_to_decimal(u64::MAX), "18446744073709551615");
}

#[test]
fn send_errors_close_with_the_server_error_code() {
    let reason = error_close_reason("connection reset");
    assert_eq!(reason.code, CloseCode::Error);
    assert_eq!(u16::from(reason.code), 1011);
    assert_eq!(
        reason.description,
        Some("Error occured: connection reset".to_string())
    );
}

#[test]
fn normalize_paths_sorts_and_deduplicates() {
    assert_eq!(
        normalize_paths(strings(&["b", "a", "a", "c"])),
        strings(&["a", "b", "c"])
    );
    assert_eq!(normalize_paths(Vec::new()), Vec::<String>::new());
    assert_eq!(normalize_paths(strings(&["b", "ab"])), strings(&["ab", "b"]));
    assert_eq!(
        normalize_paths(strings(&["x", "x", "x"])),
        strings(&["x"])
    );
}

#[test]
fn normalize_paths_is_idempotent() {
    let once = normalize_paths(strings(&["z", "m", "a", "m"]));
    let twice = normalize_paths(once.clone());
    assert_eq!(once, twice);
}
