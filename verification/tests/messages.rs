use basic_practice::json::{subscribe_message, subscribe_message_from_quoted, subscribe_request, welcome_message};
use basic_practice::ws::{
    client_step, input_action, quote_step, server_step, ClientAction, ClientEvent, Frame,
    InputAction, QuoteAction, QuoteEvent, ServerAction, ServerEvent,
};

#[test]
fn welcome_json() {
    assert_eq!(welcome_message().msg, "Hello, World!");
    assert_eq!(welcome_message().to_json(), "{\"msg\":\"Hello, World!\"}");
}

#[test]
fn subscribe_message_layout() {
    let codes = vec!["KRW-BTC", "KRW-ETH"];
    assert_eq!(
        subscribe_message("t-1", &codes),
        "[{\"ticket\":\"t-1\"},{\"codes\":[\"KRW-BTC\",\"KRW-ETH\"],\"type\":\"ticker\"},{\"format\":\"DEFAULT\"}]"
    );
}

#[test]
fn subscribe_message_escapes_strings() {
    let codes = vec!["A\"B"];
    assert_eq!(
        subscribe_message("x\\y", &codes),
        "[{\"ticket\":\"x\\\\y\"},{\"codes\":[\"A\\\"B\"],\"type\":\"ticker\"},{\"format\":\"DEFAULT\"}]"
    );
}

#[test]
fn subscribe_message_without_codes() {
    let codes: Vec<&str> = Vec::new();
    assert_eq!(
        subscribe_message_from_quoted("\"t\"", &Vec::new()),
        "[{\"ticket\":\"t\"},{\"codes\":[],\"type\":\"ticker\"},{\"format\":\"DEFAULT\"}]"
    );
    assert_eq!(
        subscribe_message("t", &codes),
        "[{\"ticket\":\"t\"},{\"codes\":[],\"type\":\"ticker\"},{\"format\":\"DEFAULT\"}]"
    );
}

#[test]
fn subscribe_request_has_a_uuid_ticket() {
    let codes = vec!["KRW-BTC", "KRW-ETH", "KRW-XRP", "KRW-USDT", "KRW-SOL"];
    let r = subscribe_request(&codes);
    let prefix = "[{\"ticket\":\"";
    assert!(r.starts_with(prefix));
    let ticket = &r[prefix.len()..prefix.len() + 36];
    let chars: Vec<char> = ticket.chars().collect();
    for (i, c) in chars.iter().enumerate() {
        if [8, 13, 18, 23].contains(&i) {
            assert_eq!(*c, '-');
        } else {
            assert!(c.is_ascii_hexdigit() && !c.is_ascii_uppercase());
        }
    }
    assert_eq!(chars[14], '4');
    assert!(['8', '9', 'a', 'b'].contains(&chars[19]));
    assert_eq!(
        &r[prefix.len() + 36..],
        "\"},{\"codes\":[\"KRW-BTC\",\"KRW-ETH\",\"KRW-XRP\",\"KRW-USDT\",\"KRW-SOL\"],\"type\":\"ticker\"},{\"format\":\"DEFAULT\"}]"
    );
    assert_ne!(subscribe_request(&codes), r);
}

#[test]
fn server_answers_text_and_ping() {
    match server_step(ServerEvent::Received(Frame::Text("hi".to_string()))) {
        ServerAction::Reply(Frame::Text(t)) => assert_eq!(t, "응답을 받았음."),
        _ => panic!("expected a text reply"),
    }
    match server_step(ServerEvent::Received(Frame::Ping(vec![1, 2]))) {
        ServerAction::Reply(Frame::Pong(p)) => assert_eq!(p, vec![1, 2]),
        _ => panic!("expected a pong"),
    }
}

#[test]
fn server_stops_or_continues() {
    assert!(matches!(server_step(ServerEvent::Received(Frame::Binary(vec![0]))), ServerAction::Continue));
    assert!(matches!(server_step(ServerEvent::Received(Frame::Pong(vec![]))), ServerAction::Continue));
    assert!(matches!(server_step(ServerEvent::Received(Frame::Close)), ServerAction::Stop));
    assert!(matches!(server_step(ServerEvent::Received(Frame::Raw)), ServerAction::Stop));
    assert!(matches!(server_step(ServerEvent::ReceiveError), ServerAction::Stop));
    assert!(matches!(server_step(ServerEvent::StreamEnded), ServerAction::Stop));
    assert!(matches!(server_step(ServerEvent::IdleTimeout), ServerAction::CloseAndStop));
}

#[test]
fn input_commands() {
    assert!(matches!(input_action("quit\n"), InputAction::Quit));
    assert!(matches!(input_action("  EXIT \r\n"), InputAction::Quit));
    assert!(matches!(input_action("QuIt"), InputAction::Quit));
    assert!(matches!(input_action(" \t\r\n"), InputAction::Skip));
    assert!(matches!(input_action(""), InputAction::Skip));
    match input_action("  hello world \r\n") {
        InputAction::Send(t) => assert_eq!(t, "hello world"),
        _ => panic!("expected text"),
    }
    match input_action("\u{3000}안녕\u{a0}\n") {
        InputAction::Send(t) => assert_eq!(t, "안녕"),
        _ => panic!("expected text"),
    }
    match input_action("quitting") {
        InputAction::Send(t) => assert_eq!(t, "quitting"),
        _ => panic!("expected text"),
    }
}

#[test]
fn client_decisions() {
    assert!(matches!(client_step(ClientEvent::Signal("s".to_string())), ClientAction::Continue));
    assert!(matches!(client_step(ClientEvent::SignalClosed), ClientAction::Stop));
    assert!(matches!(client_step(ClientEvent::Received(Frame::Close)), ClientAction::Finish));
    assert!(matches!(client_step(ClientEvent::Received(Frame::Text("x".to_string()))), ClientAction::Continue));
    assert!(matches!(client_step(ClientEvent::ReceiveError), ClientAction::Stop));
    assert!(matches!(client_step(ClientEvent::Disconnected), ClientAction::Stop));
    assert!(matches!(client_step(ClientEvent::InputClosed), ClientAction::Stop));
    assert!(matches!(client_step(ClientEvent::Input("exit\n".to_string())), ClientAction::Leave));
    assert!(matches!(client_step(ClientEvent::Input("\n".to_string())), ClientAction::Continue));
    match client_step(ClientEvent::Input(" hi \n".to_string())) {
        ClientAction::Send(Frame::Text(t)) => assert_eq!(t, "hi"),
        _ => panic!("expected text"),
    }
    match client_step(ClientEvent::PingTick) {
        ClientAction::Send(Frame::Ping(p)) => assert!(p.is_empty()),
        _ => panic!("expected ping"),
    }
}

#[test]
fn quote_decisions() {
    assert!(matches!(quote_step(QuoteEvent::Received(Frame::Binary(vec![65]))), QuoteAction::Continue));
    assert!(matches!(quote_step(QuoteEvent::ReceiveError), QuoteAction::Continue));
    assert!(matches!(quote_step(QuoteEvent::Disconnected), QuoteAction::Finish));
    match quote_step(QuoteEvent::PingTick) {
        QuoteAction::Send(Frame::Text(t)) => assert_eq!(t, "PING"),
        _ => panic!("expected PING"),
    }
}

#[test]
fn subscribe_message_escapes_control_characters() {
    let codes = vec!["a\nb\u{1}\u{1f}\t\u{8}\u{c}\r/"];
    assert_eq!(
        subscribe_message("t", &codes),
        "[{\"ticket\":\"t\"},{\"codes\":[\"a\\nb\\u0001\\u001f\\t\\b\\f\\r/\"],\"type\":\"ticker\"},{\"format\":\"DEFAULT\"}]"
    );
}
