//! Trade events and the decoder that turns one inbound frame into them.
use crate::json::{
    entries_of, json_of, literal_of, member, parse_json, shape_of, text_view, utf8_decode,
    JsonShape,
};
use vstd::prelude::*;
use vstd::string::StringExecFns;
use vstd::utf8::{decode_utf8, valid_utf8};

verus! {

/// A number kept exactly: its decimal literal, divided by ten to the power
/// `scale`.
pub struct Decimal {
    pub literal: String,
    pub scale: u32,
}

pub struct DecimalView {
    pub literal: Seq<char>,
    pub scale: nat,
}

impl View for Decimal {
    type V = DecimalView;

    open spec fn view(&self) -> DecimalView {
        DecimalView { literal: self.literal@, scale: self.scale as nat }
    }
}

/// One executed trade, ready for the sink.
pub struct TradeEvent {
    pub price: Decimal,
    pub symbol: String,
    pub timestamp_seconds: Decimal,
    pub volume: Decimal,
}

pub struct TradeView {
    pub price: DecimalView,
    pub symbol: Seq<char>,
    pub timestamp_seconds: DecimalView,
    pub volume: DecimalView,
}

impl View for TradeEvent {
    type V = TradeView;

    open spec fn view(&self) -> TradeView {
        TradeView {
            price: self.price@,
            symbol: self.symbol@,
            timestamp_seconds: self.timestamp_seconds@,
            volume: self.volume@,
        }
    }
}

/// Why a frame could not be decoded.
#[derive(Debug, PartialEq, Eq, Structural, Clone, Copy)]
pub enum DecodeError {
    /// The bytes are not valid UTF-8.
    Encoding,
    /// The text is not JSON, or not JSON of the envelope's shape.
    MalformedPayload,
}

/// A decoded frame: the envelope's type and the trades it carries (none unless
/// the type is `trade`).
pub struct Decoded {
    pub kind: String,
    pub events: Vec<TradeEvent>,
}

/// One record of an envelope's `data`, as it stands on the wire: the number
/// literals of `p`, `t` and `v`, and the text of `s`.
pub struct WireRecord {
    pub p: Seq<char>,
    pub s: Seq<char>,
    pub t: Seq<char>,
    pub v: Seq<char>,
}

/// An envelope: its `type` and its records in order.
pub struct Envelope {
    pub kind: Seq<char>,
    pub records: Seq<WireRecord>,
}

pub open spec fn number_member(m: Map<Seq<char>, serde_json::Value>, k: Seq<char>) -> Option<
    Seq<char>,
> {
    if m.contains_key(k) && shape_of(m[k]) is Number {
        Some(literal_of(shape_of(m[k])->Number_0))
    } else {
        None
    }
}

pub open spec fn text_member(m: Map<Seq<char>, serde_json::Value>, k: Seq<char>) -> Option<
    Seq<char>,
> {
    if m.contains_key(k) && shape_of(m[k]) is Text {
        Some(shape_of(m[k])->Text_0)
    } else {
        None
    }
}

/// A record is an object with numbers `p`, `t`, `v` and a string `s`; other
/// members are ignored.
pub open spec fn record_of(v: serde_json::Value) -> Option<WireRecord> {
    match shape_of(v) {
        JsonShape::Object(o) => {
            let m = entries_of(o);
            if number_member(m, "p"@) is Some && text_member(m, "s"@) is Some && number_member(
                m,
                "t"@,
            ) is Some && number_member(m, "v"@) is Some {
                Some(
                    WireRecord {
                        p: number_member(m, "p"@)->0,
                        s: text_member(m, "s"@)->0,
                        t: number_member(m, "t"@)->0,
                        v: number_member(m, "v"@)->0,
                    },
                )
            } else {
                None
            }
        },
        _ => None,
    }
}

pub open spec fn all_records(a: Seq<serde_json::Value>) -> bool {
    forall|i: int| 0 <= i < a.len() ==> (#[trigger] record_of(a[i])) is Some
}

pub open spec fn records_of(a: Seq<serde_json::Value>) -> Seq<WireRecord> {
    a.map_values(|x: serde_json::Value| record_of(x)->0)
}

/// An envelope is an object with a string `type` and, if present, a `data`
/// array of records; a missing `data` carries no records.
pub open spec fn envelope_of(v: serde_json::Value) -> Option<Envelope> {
    match shape_of(v) {
        JsonShape::Object(o) => {
            let m = entries_of(o);
            if !(text_member(m, "type"@) is Some) {
                None
            } else if !m.contains_key("data"@) {
                Some(Envelope { kind: text_member(m, "type"@)->0, records: Seq::empty() })
            } else {
                match shape_of(m["data"@]) {
                    JsonShape::Array(a) => if all_records(a) {
                        Some(Envelope { kind: text_member(m, "type"@)->0, records: records_of(a) })
                    } else {
                        None
                    },
                    _ => None,
                }
            }
        },
        _ => None,
    }
}

/// The trade a record describes: the timestamp comes in milliseconds and is
/// held in seconds, the literal divided by a thousand.
pub open spec fn event_of(r: WireRecord) -> TradeView {
    TradeView {
        price: DecimalView { literal: r.p, scale: 0 },
        symbol: r.s,
        timestamp_seconds: DecimalView { literal: r.t, scale: 3 },
        volume: DecimalView { literal: r.v, scale: 0 },
    }
}

/// The trades an envelope yields: one per record, in order, for type `trade`;
/// none for any other type.
pub open spec fn trades_of(e: Envelope) -> Seq<TradeView> {
    if e.kind == "trade"@ {
        e.records.map_values(|r: WireRecord| event_of(r))
    } else {
        Seq::empty()
    }
}

/// What a parsed JSON value gives: the envelope's type and its trades.
pub open spec fn decode_value_spec(v: serde_json::Value) -> Result<
    (Seq<char>, Seq<TradeView>),
    DecodeError,
> {
    match envelope_of(v) {
        None => Err(DecodeError::MalformedPayload),
        Some(e) => Ok((e.kind, trades_of(e))),
    }
}

/// What decoding a text gives.
pub open spec fn decode_text_spec(text: Seq<char>) -> Result<(Seq<char>, Seq<TradeView>), DecodeError> {
    match json_of(text) {
        None => Err(DecodeError::MalformedPayload),
        Some(v) => decode_value_spec(v),
    }
}

/// What decoding a byte payload gives.
pub open spec fn decode_spec(b: Seq<u8>) -> Result<(Seq<char>, Seq<TradeView>), DecodeError> {
    if valid_utf8(b) {
        decode_text_spec(decode_utf8(b))
    } else {
        Err(DecodeError::Encoding)
    }
}

pub open spec fn decoded_view(r: Result<Decoded, DecodeError>) -> Result<
    (Seq<char>, Seq<TradeView>),
    DecodeError,
> {
    match r {
        Ok(d) => Ok((d.kind@, d.events@.map_values(|e: TradeEvent| e@))),
        Err(e) => Err(e),
    }
}

fn number_field(o: &serde_json::Map<String, serde_json::Value>, key: &str) -> (r: Option<String>)
    ensures
        text_view(r) == number_member(entries_of(*o), key@),
{
    match member(o, key) {
        Some(v) => match v.as_number() {
            Some(n) => Some(n.as_str().to_owned()),
            None => None,
        },
        None => None,
    }
}

fn text_field(o: &serde_json::Map<String, serde_json::Value>, key: &str) -> (r: Option<String>)
    ensures
        text_view(r) == text_member(entries_of(*o), key@),
{
    match member(o, key) {
        Some(v) => match v.as_str() {
            Some(s) => Some(s.to_owned()),
            None => None,
        },
        None => None,
    }
}

/// Reads one record of `data` into a trade event.
fn record_event(v: &serde_json::Value) -> (r: Option<TradeEvent>)
    ensures
        r is Some <==> record_of(*v) is Some,
        r is Some ==> r->0@ == event_of(record_of(*v)->0),
{
    let o = match v.as_object() {
        Some(o) => o,
        None => return None,
    };
    let p = number_field(o, "p");
    let s = text_field(o, "s");
    let t = number_field(o, "t");
    let n = number_field(o, "v");
    match (p, s, t, n) {
        (Some(p), Some(s), Some(t), Some(n)) => Some(
            TradeEvent {
                price: Decimal { literal: p, scale: 0 },
                symbol: s,
                timestamp_seconds: Decimal { literal: t, scale: 3 },
                volume: Decimal { literal: n, scale: 0 },
            },
        ),
        _ => None,
    }
}

/// Reads every record of `data`, in order; `None` if one is not a record.
fn record_events(a: &Vec<serde_json::Value>) -> (r: Option<Vec<TradeEvent>>)
    ensures
        r is Some <==> all_records(a@),
        r is Some ==> r->0@.map_values(|e: TradeEvent| e@) == records_of(a@).map_values(
            |w: WireRecord| event_of(w),
        ),
{
    let mut out: Vec<TradeEvent> = Vec::new();
    let mut i: usize = 0;
    while i < a.len()
        invariant
            i <= a@.len(),
            forall|j: int| 0 <= j < i ==> (#[trigger] record_of(a@[j])) is Some,
            out@.len() == i,
            forall|j: int|
                0 <= j < i ==> (#[trigger] out@[j])@ == event_of(record_of(a@[j])->0),
        decreases a@.len() - i,
    {
        match record_event(&a[i]) {
            Some(e) => out.push(e),
            None => return None,
        }
        i = i + 1;
    }
    assert(out@.map_values(|e: TradeEvent| e@) =~= records_of(a@).map_values(
        |w: WireRecord| event_of(w),
    ));
    Some(out)
}

/// Reads a parsed JSON value as an envelope: its type, and its trades in the
/// order of its records, each timestamp divided by a thousand;
/// `MalformedPayload` where the value does not have the envelope's shape.
pub fn decode_envelope(v: &serde_json::Value) -> (r: Result<Decoded, DecodeError>)
    ensures
        decoded_view(r) == decode_value_spec(*v),
{
    let o = match v.as_object() {
        Some(o) => o,
        None => return Err(DecodeError::MalformedPayload),
    };
    let kind = match text_field(o, "type") {
        Some(k) => k,
        None => return Err(DecodeError::MalformedPayload),
    };
    let records = match member(o, "data") {
        None => Vec::new(),
        Some(d) => match d.as_array() {
            None => return Err(DecodeError::MalformedPayload),
            Some(a) => match record_events(a) {
                None => return Err(DecodeError::MalformedPayload),
                Some(events) => events,
            },
        },
    };
    let ghost e = envelope_of(*v)->0;
    assert(records@.map_values(|x: TradeEvent| x@) =~= e.records.map_values(
        |w: WireRecord| event_of(w),
    ));
    let trade = String::from_str("trade");
    let events = if kind == trade {
        records
    } else {
        Vec::new()
    };
    assert(events@.map_values(|x: TradeEvent| x@) =~= trades_of(e));
    Ok(Decoded { kind, events })
}

/// Decodes a text frame: `MalformedPayload` where the text is not JSON, else
/// as `decode_envelope` on the value it holds.
pub fn decode_text(text: &str) -> (r: Result<Decoded, DecodeError>)
    ensures
        decoded_view(r) == decode_text_spec(text@),
{
    match parse_json(text) {
        Some(v) => decode_envelope(&v),
        None => Err(DecodeError::MalformedPayload),
    }
}

/// Decodes a frame's payload: `Encoding` where the bytes are not valid UTF-8,
/// else as `decode_text` on the text they spell.
pub fn decode(payload: &[u8]) -> (r: Result<Decoded, DecodeError>)
    ensures
        decoded_view(r) == decode_spec(payload@),
{
    match utf8_decode(payload) {
        None => Err(DecodeError::Encoding),
        Some(text) => decode_text(text.as_str()),
    }
}

} // verus!
