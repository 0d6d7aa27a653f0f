//! Properties that hold across the decoder's inputs and across ticks.
use crate::json::json_of;
use crate::subscription::{configured_symbols, directive_text, needs_no_escape, Subscriptions};
use crate::trade::{
    decode_spec, decode_text_spec, envelope_of, event_of, DecimalView, DecodeError,
};
use crate::supervisor::{subscription_line, Diagnostic};
use vstd::prelude::*;
use vstd::utf8::valid_utf8;

verus! {

/// A `trade` envelope with N records decodes to exactly N trades, in the
/// records' order, each timestamp the record's `t` divided by a thousand.
pub proof fn trade_envelope_yields_every_record(text: Seq<char>)
    requires
        json_of(text) is Some,
        envelope_of(json_of(text)->0) is Some,
        envelope_of(json_of(text)->0)->0.kind == "trade"@,
    ensures
        ({
            let e = envelope_of(json_of(text)->0)->0;
            let r = decode_text_spec(text);
            &&& r is Ok
            &&& r->Ok_0.1.len() == e.records.len()
            &&& forall|i: int|
                0 <= i < e.records.len() ==> {
                    &&& #[trigger] r->Ok_0.1[i] == event_of(e.records[i])
                    &&& r->Ok_0.1[i].timestamp_seconds == DecimalView {
                        literal: e.records[i].t,
                        scale: 3,
                    }
                }
        }),
{
}

/// An envelope of any other type decodes to no trades and no error.
pub proof fn other_envelope_yields_nothing(text: Seq<char>)
    requires
        json_of(text) is Some,
        envelope_of(json_of(text)->0) is Some,
        envelope_of(json_of(text)->0)->0.kind != "trade"@,
    ensures
        decode_text_spec(text) == Ok::<(Seq<char>, Seq<crate::trade::TradeView>), DecodeError>(
            (envelope_of(json_of(text)->0)->0.kind, Seq::empty()),
        ),
{
}

/// Bytes that are not valid UTF-8 fail with `Encoding`, and so yield no trade.
pub proof fn invalid_utf8_is_encoding_error(b: Seq<u8>)
    requires
        !valid_utf8(b),
    ensures
        decode_spec(b) == Err::<(Seq<char>, Seq<crate::trade::TradeView>), DecodeError>(
            DecodeError::Encoding,
        ),
{
}

/// JSON that does not have the envelope's shape fails with `MalformedPayload`.
pub proof fn wrong_shape_is_malformed(text: Seq<char>)
    requires
        json_of(text) is Some,
        envelope_of(json_of(text)->0) is None,
    ensures
        decode_text_spec(text) == Err::<(Seq<char>, Seq<crate::trade::TradeView>), DecodeError>(
            DecodeError::MalformedPayload,
        ),
{
}

/// After `n` ticks exactly `n` directives per configured instrument have been
/// written, the same round each time: tick `k` writes, at position `i` of its
/// round, the directive for instrument `i`.
pub proof fn ticks_resend_the_same_round(s: Subscriptions, n: nat)
    ensures
        s.rounds(n).len() == n * s.symbols().len(),
        forall|k: int, i: int|
            0 <= k < n && 0 <= i < s.symbols().len() ==> #[trigger] s.rounds(n)[k
                * s.symbols().len() + i] == directive_text(s.symbols()[i]),
    decreases n,
{
    let m = s.symbols().len();
    if n > 0 {
        let p = (n - 1) as nat;
        ticks_resend_the_same_round(s, p);
        assert(n * m == p * m + m) by (nonlinear_arith)
            requires
                n == p + 1,
        ;
        assert forall|k: int, i: int| 0 <= k < n && 0 <= i < m implies #[trigger] s.rounds(n)[k
            * m + i] == directive_text(s.symbols()[i]) by {
            if k < p {
                assert(k * m + i < p * m) by (nonlinear_arith)
                    requires
                        k < p,
                        0 <= i < m,
                ;
                assert(s.rounds(p)[k * m + i] == directive_text(s.symbols()[i]));
            } else {
                assert(k * m == p * m) by (nonlinear_arith)
                    requires
                        k == p,
                ;
            }
        }
    }
}

/// Every round sent for the configured instruments is exactly
/// `{"type":"subscribe","symbol":"BINANCE:BTCUSDT"}` then
/// `{"type":"subscribe","symbol":"IC MARKETS:1"}`, the same at every tick.
pub proof fn configured_rounds_are_exact(s: Subscriptions, n: nat)
    requires
        s.symbols() == configured_symbols(),
    ensures
        s.round() == seq![
            "{\"type\":\"subscribe\",\"symbol\":\"BINANCE:BTCUSDT\"}"@,
            "{\"type\":\"subscribe\",\"symbol\":\"IC MARKETS:1\"}"@,
        ],
        s.rounds(n).len() == 2 * n,
        forall|k: int, i: int|
            0 <= k < n && 0 <= i < 2 ==> #[trigger] s.rounds(n)[k * 2 + i] == s.round()[i],
{
    reveal_strlit("BINANCE:BTCUSDT");
    reveal_strlit("IC MARKETS:1");
    reveal_strlit("{\"type\":\"subscribe\",\"symbol\":\"");
    reveal_strlit("\"}");
    reveal_strlit("{\"type\":\"subscribe\",\"symbol\":\"BINANCE:BTCUSDT\"}");
    reveal_strlit("{\"type\":\"subscribe\",\"symbol\":\"IC MARKETS:1\"}");
    let a = "BINANCE:BTCUSDT"@;
    let b = "IC MARKETS:1"@;
    assert(needs_no_escape(a));
    assert(needs_no_escape(b));
    assert(directive_text(a) =~= "{\"type\":\"subscribe\",\"symbol\":\"BINANCE:BTCUSDT\"}"@);
    assert(directive_text(b) =~= "{\"type\":\"subscribe\",\"symbol\":\"IC MARKETS:1\"}"@);
    assert(s.round() =~= seq![directive_text(a), directive_text(b)]);
    ticks_resend_the_same_round(s, n);
    assert(n * 2 == 2 * n) by (nonlinear_arith);
    assert forall|k: int, i: int| 0 <= k < n && 0 <= i < 2 implies #[trigger] s.rounds(n)[k * 2
        + i] == s.round()[i] by {
        assert(s.rounds(n)[k * s.symbols().len() + i] == directive_text(s.symbols()[i]));
    }
}

/// Sending the same directive N times, each write succeeding, logs N lines,
/// each naming that directive, and reports no error.
pub proof fn resending_logs_once_per_send(directive: String, results: Seq<Result<(), String>>)
    requires
        forall|i: int| 0 <= i < results.len() ==> (#[trigger] results[i]) is Ok,
    ensures
        ({
            let lines = results.map_values(|r: Result<(), String>| subscription_line(directive, r));
            &&& lines.len() == results.len()
            &&& forall|i: int|
                0 <= i < lines.len() ==> #[trigger] lines[i] == Diagnostic::Subscribed(directive)
        }),
{
    let lines = results.map_values(|r: Result<(), String>| subscription_line(directive, r));
    assert forall|i: int| 0 <= i < lines.len() implies #[trigger] lines[i]
        == Diagnostic::Subscribed(directive) by {
        assert(results[i] is Ok);
    }
}

} // verus!
