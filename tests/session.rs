use trade_ingest::error_handling::AppError;
use trade_ingest::subscription::{subscribe_directive, Subscriptions, RESUBSCRIBE_INTERVAL_SECS};
use trade_ingest::supervisor::{
    after_subscription_write, connected_diagnostic, handle_inbound, ConnectionError, Diagnostic,
    Inbound, PersistQueue,
};

#[test]
fn directive_has_the_wire_format() {
    assert_eq!(
        subscribe_directive("BINANCE:BTCUSDT"),
        r#"{"type":"subscribe","symbol":"BINANCE:BTCUSDT"}"#
    );
    assert_eq!(
        subscribe_directive("IC MARKETS:1"),
        r#"{"type":"subscribe","symbol":"IC MARKETS:1"}"#
    );
}

#[test]
fn directive_escapes_the_symbol() {
    assert_eq!(
        subscribe_directive("A\"B\\C"),
        r#"{"type":"subscribe","symbol":"A\"B\\C"}"#
    );
}

#[test]
fn every_tick_sends_one_directive_per_instrument() {
    let s = Subscriptions::new(vec!["BINANCE:BTCUSDT".to_string(), "IC MARKETS:1".to_string()]);
    let first = s.tick();
    assert_eq!(
        first,
        vec![
            r#"{"type":"subscribe","symbol":"BINANCE:BTCUSDT"}"#.to_string(),
            r#"{"type":"subscribe","symbol":"IC MARKETS:1"}"#.to_string(),
        ]
    );
    assert_eq!(RESUBSCRIBE_INTERVAL_SECS, 60);
}

#[test]
fn resending_the_same_round_changes_nothing() {
    let s = Subscriptions::new(vec!["BINANCE:BTCUSDT".to_string(), "IC MARKETS:1".to_string()]);
    let first = s.tick();
    let mut writes = Vec::new();
    for _ in 0..5 {
        let round = s.tick();
        assert_eq!(round, first);
        writes.extend(round);
        // inbound traffic between ticks does not change the next round
        let _ = handle_inbound(Inbound::Payload(b"not json".to_vec()));
    }
    assert_eq!(writes.len(), 10);
}

#[test]
fn no_instruments_no_directives() {
    let s = Subscriptions::new(Vec::new());
    assert!(s.tick().is_empty());
}

#[test]
fn every_subscription_write_is_logged() {
    let directive = subscribe_directive("BINANCE:BTCUSDT");
    let ok = after_subscription_write(directive.clone(), Ok(()));
    assert_eq!(ok, Diagnostic::Subscribed(directive.clone()));
    assert_eq!(ok.line(), r#"Sent {"type":"subscribe","symbol":"BINANCE:BTCUSDT"}"#);
    let d = after_subscription_write(directive, Err("closed".to_string()));
    assert_eq!(d.line(), "Failed to send a subscribe directive: closed");
}

#[test]
fn resending_a_directive_logs_once_per_send() {
    let directive = subscribe_directive("IC MARKETS:1");
    let lines: Vec<String> = (0..4)
        .map(|_| after_subscription_write(directive.clone(), Ok(())).line())
        .collect();
    assert_eq!(lines.len(), 4);
    assert!(lines.iter().all(|l| *l == format!("Sent {}", directive)));
}

#[test]
fn configured_instruments_send_the_exact_round() {
    let s = Subscriptions::configured();
    let expected = vec![
        r#"{"type":"subscribe","symbol":"BINANCE:BTCUSDT"}"#.to_string(),
        r#"{"type":"subscribe","symbol":"IC MARKETS:1"}"#.to_string(),
    ];
    assert_eq!(s.tick(), expected);
    assert_eq!(s.tick(), expected);
}

#[test]
fn failed_insert_does_not_stop_later_events() {
    let input = r#"{"type":"trade","data":[
        {"p":1,"s":"A","t":1000,"v":2},
        {"p":2,"s":"B","t":2000,"v":3},
        {"p":3,"s":"C","t":3000,"v":4}]}"#;
    let o = handle_inbound(Inbound::Payload(input.as_bytes().to_vec()));
    let mut q = PersistQueue::new(o.persist);
    let mut attempted = Vec::new();
    let mut diagnostics = Vec::new();
    while let Some(e) = q.pending() {
        attempted.push(e.symbol.clone());
        let result = if e.symbol == "A" { Err("disk full".to_string()) } else { Ok(()) };
        if let Some(d) = q.record(result) {
            diagnostics.push(d.line());
        }
    }
    assert_eq!(attempted, vec!["A", "B", "C"]);
    assert_eq!(diagnostics, vec!["Failed to persist a trade: disk full".to_string()]);
    // a later frame is still handled
    let later = handle_inbound(Inbound::Payload(
        br#"{"type":"trade","data":[{"p":1,"s":"D","t":1000,"v":2}]}"#.to_vec(),
    ));
    assert_eq!(later.persist.len(), 1);
}

#[test]
fn connected_line_drops_the_query() {
    let d = connected_diagnostic("wss://ws.example.io/feed?token=SECRET-REDACTED", Ok(()))
        .ok()
        .unwrap();
    assert_eq!(d, Diagnostic::Connected("wss://ws.example.io/feed".to_string()));
    assert_eq!(d.line(), "Connected to wss://ws.example.io/feed");
}

#[test]
fn endpoint_that_is_not_a_url_is_a_connection_error() {
    let e = connected_diagnostic("not a url", Ok(())).err().unwrap();
    assert_eq!(e, ConnectionError::InvalidEndpoint);
    assert_eq!(e.line(), "The endpoint is not a URL");
    let e = connected_diagnostic("not a url", Err("refused".to_string())).err();
    assert_eq!(e, Some(ConnectionError::InvalidEndpoint));
}

#[test]
fn failed_handshake_is_a_connection_error() {
    let e = connected_diagnostic("wss://ws.example.io/", Err("refused".to_string()))
        .err()
        .unwrap();
    assert_eq!(e, ConnectionError::Handshake("refused".to_string()));
    assert_eq!(e.line(), "Handshake failed: refused");
}

#[test]
fn app_error_defaults_to_server_error() {
    let r = AppError::new("db down".to_string()).reply("id-1".to_string());
    assert_eq!(r.code, 500);
    assert_eq!(r.body.user_message, "Server error");
    assert_eq!(r.body.error_id, "id-1");
    assert_eq!(r.log_line, "id-1. AppError: Error id: id-1. Message: db down");
}

#[test]
fn app_error_keeps_user_message_and_code() {
    let r = AppError::from("bad input")
        .with_user_message("Please retry".to_string())
        .with_code(400)
        .reply("x".to_string());
    assert_eq!(r.code, 400);
    assert_eq!(r.body.user_message, "Please retry");
    let r = AppError::from("m".to_string()).reply("y".to_string());
    assert_eq!(r.log_line, "y. AppError: Error id: y. Message: m");
}
