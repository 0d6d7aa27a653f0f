use trade_ingest::supervisor::{handle_inbound, Diagnostic, Inbound};
use trade_ingest::trade::{decode, decode_envelope, decode_text, DecodeError, Decimal};

fn as_f64(d: &Decimal) -> f64 {
    d.literal.parse::<f64>().unwrap() / 10f64.powi(d.scale as i32)
}

#[test]
fn single_trade_record_decodes_to_one_event() {
    let input = r#"{"type":"trade","data":[{"p":42000.5,"s":"BINANCE:BTCUSDT","t":1700000000000,"v":0.01}]}"#;
    let d = decode(input.as_bytes()).ok().unwrap();
    assert_eq!(d.kind, "trade");
    assert_eq!(d.events.len(), 1);
    let e = &d.events[0];
    assert_eq!(e.price.literal, "42000.5");
    assert_eq!(e.price.scale, 0);
    assert_eq!(e.symbol, "BINANCE:BTCUSDT");
    assert_eq!(e.timestamp_seconds.literal, "1700000000000");
    assert_eq!(e.timestamp_seconds.scale, 3);
    assert_eq!(e.volume.literal, "0.01");
    assert_eq!(as_f64(&e.price), 42000.5);
    assert_eq!(as_f64(&e.timestamp_seconds), 1700000000.0);
    assert_eq!(as_f64(&e.volume), 0.01);
}

#[test]
fn records_keep_their_order() {
    let input = r#"{"type":"trade","data":[
        {"p":1,"s":"A","t":1000,"v":2},
        {"p":3.5,"s":"B","t":2500,"v":4,"c":null},
        {"p":-5,"s":"A","t":3000,"v":6e2}]}"#;
    let d = decode_text(input).ok().unwrap();
    let symbols: Vec<&str> = d.events.iter().map(|e| e.symbol.as_str()).collect();
    assert_eq!(symbols, vec!["A", "B", "A"]);
    let ts: Vec<f64> = d.events.iter().map(|e| as_f64(&e.timestamp_seconds)).collect();
    assert_eq!(ts, vec![1.0, 2.5, 3.0]);
    assert_eq!(d.events[1].price.literal, "3.5");
    assert_eq!(d.events[2].price.literal, "-5");
    assert_eq!(d.events[2].volume.literal, "6e+2");
    assert_eq!(as_f64(&d.events[2].volume), 600.0);
}

#[test]
fn trade_envelope_with_empty_data_yields_nothing() {
    let d = decode_text(r#"{"type":"trade","data":[]}"#).ok().unwrap();
    assert_eq!(d.kind, "trade");
    assert!(d.events.is_empty());
}

#[test]
fn ping_envelope_is_skipped_without_error() {
    let d = decode_text(r#"{"type":"ping"}"#).ok().unwrap();
    assert_eq!(d.kind, "ping");
    assert!(d.events.is_empty());
    let o = handle_inbound(Inbound::Payload(br#"{"type":"ping"}"#.to_vec()));
    assert!(o.persist.is_empty());
    assert_eq!(o.diagnostic, Some(Diagnostic::SkippedType("ping".to_string())));
    assert_eq!(o.diagnostic.unwrap().line(), "Skipped envelope of type ping");
}

#[test]
fn other_type_with_records_yields_no_events() {
    let input = r#"{"type":"news","data":[{"p":1,"s":"A","t":1000,"v":2}]}"#;
    let d = decode_text(input).ok().unwrap();
    assert_eq!(d.kind, "news");
    assert!(d.events.is_empty());
}

#[test]
fn not_json_is_malformed() {
    assert_eq!(decode(b"not json").err(), Some(DecodeError::MalformedPayload));
    let o = handle_inbound(Inbound::Payload(b"not json".to_vec()));
    assert!(o.persist.is_empty());
    assert_eq!(o.diagnostic, Some(Diagnostic::MalformedPayload));
}

#[test]
fn invalid_utf8_is_encoding_error() {
    let bytes = vec![0x7b, 0xff, 0xfe, 0x7d];
    assert_eq!(decode(&bytes).err(), Some(DecodeError::Encoding));
    let o = handle_inbound(Inbound::Payload(bytes));
    assert!(o.persist.is_empty());
    assert_eq!(o.diagnostic, Some(Diagnostic::Encoding));
    assert_eq!(Diagnostic::Encoding.line(), "Invalid UTF-8 sequence");
}

#[test]
fn json_of_other_shapes_is_malformed() {
    let cases = [
        "[1,2,3]",
        "42",
        r#""trade""#,
        r#"{"data":[]}"#,
        r#"{"type":7,"data":[]}"#,
        r#"{"type":"trade","data":{}}"#,
        r#"{"type":"trade","data":[{"p":"1","s":"A","t":1000,"v":2}]}"#,
        r#"{"type":"trade","data":[{"p":1,"s":5,"t":1000,"v":2}]}"#,
        r#"{"type":"trade","data":[{"p":1,"s":"A","v":2}]}"#,
        r#"{"type":"trade","data":[{"p":1,"s":"A","t":1000,"v":2},3]}"#,
        r#"{"type":"ping","data":[1]}"#,
    ];
    for c in cases {
        assert_eq!(decode_text(c).err(), Some(DecodeError::MalformedPayload), "{}", c);
    }
}

#[test]
fn trade_frame_yields_events_and_no_diagnostic() {
    let input = r#"{"type":"trade","data":[{"p":42000.5,"s":"BINANCE:BTCUSDT","t":1700000000000,"v":0.01}]}"#;
    let o = handle_inbound(Inbound::Payload(input.as_bytes().to_vec()));
    assert_eq!(o.persist.len(), 1);
    assert!(o.diagnostic.is_none());
}

#[test]
fn transport_error_is_reported_and_persists_nothing() {
    let o = handle_inbound(Inbound::TransportError("reset".to_string()));
    assert!(o.persist.is_empty());
    let d = o.diagnostic.unwrap();
    assert_eq!(d.line(), "Error while reading a frame: reset");
}

#[test]
fn parsed_envelope_decodes_directly() {
    let v: serde_json::Value =
        serde_json::from_str(r#"{"type":"trade","data":[{"p":7,"s":"X","t":42,"v":1}]}"#).unwrap();
    let d = decode_envelope(&v).ok().unwrap();
    assert_eq!(d.events.len(), 1);
    assert_eq!(d.events[0].timestamp_seconds.literal, "42");
    assert_eq!(as_f64(&d.events[0].timestamp_seconds), 0.042);
    let bad: serde_json::Value = serde_json::from_str("[]").unwrap();
    assert_eq!(decode_envelope(&bad).err(), Some(DecodeError::MalformedPayload));
}

#[test]
fn non_text_frame_is_reported_and_persists_nothing() {
    let o = handle_inbound(Inbound::NonText);
    assert!(o.persist.is_empty());
    assert_eq!(o.diagnostic, Some(Diagnostic::NonTextFrame));
    assert_eq!(Diagnostic::NonTextFrame.line(), "Ignored a frame without text");
}
