//! The fixed set of instruments and the subscribe directives sent for them on
//! every tick of the keep-alive timer.
use vstd::prelude::*;
use vstd::string::StringExecFns;

verus! {

/// Seconds between two rounds of subscribe directives.
pub const RESUBSCRIBE_INTERVAL_SECS: u64 = 60;

/// The JSON string literal that `serde_json` writes for a text: quoted, with
/// the characters JSON requires escaped.
pub uninterp spec fn json_quoted(s: Seq<char>) -> Seq<char>;

/// A text that JSON writes as it is: no `"`, no backslash and no control
/// character.
pub open spec fn needs_no_escape(s: Seq<char>) -> bool {
    forall|i: int|
        0 <= i < s.len() ==> {
            &&& (#[trigger] s[i]) != '"'
            &&& s[i] != '\\'
            &&& (s[i] as u32) >= 0x20
        }
}

/// Relies on `serde_json::Value`'s `Display` on a string value: writes it as a
/// JSON string literal, which for a text that needs no escape is the text
/// between two quotes.
#[verifier::external_body]
fn quote(s: &str) -> (r: String)
    ensures
        r@ == json_quoted(s@),
        needs_no_escape(s@) ==> r@ == seq!['"'] + s@ + seq!['"'],
{
    serde_json::Value::String(s.to_owned()).to_string()
}

/// The directive that subscribes to `symbol`:
/// `{"type":"subscribe","symbol":<symbol as a JSON string>}`.
pub open spec fn directive_text(symbol: Seq<char>) -> Seq<char> {
    if needs_no_escape(symbol) {
        "{\"type\":\"subscribe\",\"symbol\":\""@ + symbol + "\"}"@
    } else {
        "{\"type\":\"subscribe\",\"symbol\":"@ + json_quoted(symbol) + "}"@
    }
}

/// The instruments followed: one of each upstream namespace.
pub open spec fn configured_symbols() -> Seq<Seq<char>> {
    seq!["BINANCE:BTCUSDT"@, "IC MARKETS:1"@]
}

/// The text frame that subscribes to `symbol`.
pub fn subscribe_directive(symbol: &str) -> (r: String)
    ensures
        r@ == directive_text(symbol@),
{
    let head = String::from_str("{\"type\":\"subscribe\",\"symbol\":");
    let q = quote(symbol);
    let r = head.concat(q.as_str()).concat("}");
    proof {
        reveal_strlit("{\"type\":\"subscribe\",\"symbol\":");
        reveal_strlit("{\"type\":\"subscribe\",\"symbol\":\"");
        reveal_strlit("}");
        reveal_strlit("\"}");
        if needs_no_escape(symbol@) {
            assert(r@ =~= directive_text(symbol@));
        }
    }
    r
}

/// The instruments this client follows, fixed once configured.
pub struct Subscriptions {
    symbols: Vec<String>,
}

impl Subscriptions {
    pub closed spec fn symbols(&self) -> Seq<Seq<char>> {
        self.symbols@.map_values(|s: String| s@)
    }

    /// The frames of one round: a directive per instrument, in order.
    pub open spec fn round(&self) -> Seq<Seq<char>> {
        self.symbols().map_values(|s: Seq<char>| directive_text(s))
    }

    /// The frames of `n` rounds, one after the other.
    pub open spec fn rounds(&self, n: nat) -> Seq<Seq<char>>
        decreases n,
    {
        if n == 0 {
            Seq::empty()
        } else {
            self.rounds((n - 1) as nat) + self.round()
        }
    }

    /// The instruments this client follows.
    pub fn configured() -> (r: Subscriptions)
        ensures
            r.symbols() == configured_symbols(),
    {
        let symbols = vec![String::from_str("BINANCE:BTCUSDT"), String::from_str("IC MARKETS:1")];
        let r = Subscriptions { symbols };
        assert(r.symbols() =~= configured_symbols());
        r
    }

    pub fn new(symbols: Vec<String>) -> (r: Subscriptions)
        ensures
            r.symbols() == symbols@.map_values(|s: String| s@),
    {
        Subscriptions { symbols }
    }

    /// The directives of one tick: one per configured instrument, in the
    /// configured order. Nothing of `self` changes, so every tick sends the
    /// same frames.
    pub fn tick(&self) -> (r: Vec<String>)
        ensures
            r@.map_values(|f: String| f@) == self.round(),
    {
        proof {
            reveal(Subscriptions::symbols);
        }
        let mut out: Vec<String> = Vec::new();
        let mut i: usize = 0;
        while i < self.symbols.len()
            invariant
                i <= self.symbols@.len(),
                out@.len() == i,
                forall|j: int|
                    0 <= j < i ==> (#[trigger] out@[j])@ == directive_text(self.symbols@[j]@),
            decreases self.symbols@.len() - i,
        {
            out.push(subscribe_directive(self.symbols[i].as_str()));
            i = i + 1;
        }
        assert(out@.map_values(|f: String| f@) =~= self.round());
        out
    }
}

} // verus!
