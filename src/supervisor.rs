//! The decisions of the connection's read loop. The loop itself (awaiting
//! frames, writing to the sink, printing) runs outside; it hands each inbound
//! event here and performs what comes back.
use crate::json::text_view;
use crate::trade::{decode, decode_spec, DecodeError, TradeEvent, TradeView};
use vstd::prelude::*;
use vstd::string::StringExecFns;

verus! {

/// What arrived on the read half of the connection.
pub enum Inbound {
    /// A frame's payload.
    Payload(Vec<u8>),
    /// The transport reported an error instead of a frame.
    TransportError(String),
    /// A frame that carries no text (binary, ping, pong, close).
    NonText,
}

/// One line of the diagnostic stream, naming its cause.
#[derive(Debug, PartialEq, Eq)]
pub enum Diagnostic {
    Connected(String),
    SkippedType(String),
    Encoding,
    MalformedPayload,
    Transport(String),
    NonTextFrame,
    Storage(String),
    Subscribed(String),
    SubscriptionWrite(String),
}

pub open spec fn line_of(d: Diagnostic) -> Seq<char> {
    match d {
        Diagnostic::Connected(e) => "Connected to "@ + e@,
        Diagnostic::SkippedType(k) => "Skipped envelope of type "@ + k@,
        Diagnostic::Encoding => "Invalid UTF-8 sequence"@,
        Diagnostic::MalformedPayload => "Malformed payload"@,
        Diagnostic::Transport(e) => "Error while reading a frame: "@ + e@,
        Diagnostic::NonTextFrame => "Ignored a frame without text"@,
        Diagnostic::Storage(e) => "Failed to persist a trade: "@ + e@,
        Diagnostic::Subscribed(d) => "Sent "@ + d@,
        Diagnostic::SubscriptionWrite(e) => "Failed to send a subscribe directive: "@ + e@,
    }
}

impl Diagnostic {
    /// The text of the line.
    pub fn line(&self) -> (r: String)
        ensures
            r@ == line_of(*self),
    {
        match self {
            Diagnostic::Connected(e) => String::from_str("Connected to ").concat(e.as_str()),
            Diagnostic::SkippedType(k) => String::from_str("Skipped envelope of type ").concat(
                k.as_str(),
            ),
            Diagnostic::Encoding => String::from_str("Invalid UTF-8 sequence"),
            Diagnostic::MalformedPayload => String::from_str("Malformed payload"),
            Diagnostic::Transport(e) => String::from_str("Error while reading a frame: ").concat(
                e.as_str(),
            ),
            Diagnostic::NonTextFrame => String::from_str("Ignored a frame without text"),
            Diagnostic::Storage(e) => String::from_str("Failed to persist a trade: ").concat(
                e.as_str(),
            ),
            Diagnostic::Subscribed(d) => String::from_str("Sent ").concat(d.as_str()),
            Diagnostic::SubscriptionWrite(e) => String::from_str(
                "Failed to send a subscribe directive: ",
            ).concat(e.as_str()),
        }
    }
}

/// The endpoint as `url` writes it once its query is removed, or `None` where
/// `url` does not parse the text.
pub uninterp spec fn endpoint_without_query(addr: Seq<char>) -> Option<Seq<char>>;

/// Relies on `url::Url::parse`, `url::Url::set_query` and the `Url`'s
/// `Display`: parses the endpoint and writes it back without its query.
#[verifier::external_body]
fn strip_query(addr: &str) -> (r: Option<String>)
    ensures
        text_view(r) == endpoint_without_query(addr@),
{
    let mut u = url::Url::parse(addr).ok()?;
    u.set_query(None);
    Some(u.to_string())
}

/// Why the connection could not be set up.
#[derive(Debug, PartialEq, Eq)]
pub enum ConnectionError {
    /// The endpoint is not a URL.
    InvalidEndpoint,
    /// The handshake did not complete.
    Handshake(String),
}

impl ConnectionError {
    /// The text reported when the run ends on this error.
    pub fn line(&self) -> (r: String)
        ensures
            r@ == match *self {
                ConnectionError::InvalidEndpoint => "The endpoint is not a URL"@,
                ConnectionError::Handshake(e) => "Handshake failed: "@ + e@,
            },
    {
        match self {
            ConnectionError::InvalidEndpoint => String::from_str("The endpoint is not a URL"),
            ConnectionError::Handshake(e) => String::from_str("Handshake failed: ").concat(
                e.as_str(),
            ),
        }
    }
}

/// The outcome of connecting to `addr`, given how the handshake went: an
/// endpoint that is not a URL is `InvalidEndpoint`; else a failed handshake is
/// `Handshake` with its cause; else the line logged, naming the endpoint
/// without its query.
pub fn connected_diagnostic(addr: &str, handshake: Result<(), String>) -> (r: Result<
    Diagnostic,
    ConnectionError,
>)
    ensures
        match endpoint_without_query(addr@) {
            None => r == Err::<Diagnostic, ConnectionError>(ConnectionError::InvalidEndpoint),
            Some(e) => match handshake {
                Err(h) => r == Err::<Diagnostic, ConnectionError>(ConnectionError::Handshake(h)),
                Ok(()) => r is Ok && r->Ok_0 is Connected && r->Ok_0->Connected_0@ == e,
            },
        },
{
    match strip_query(addr) {
        None => Err(ConnectionError::InvalidEndpoint),
        Some(e) => match handshake {
            Err(h) => Err(ConnectionError::Handshake(h)),
            Ok(()) => Ok(Diagnostic::Connected(e)),
        },
    }
}

/// What the loop does with one inbound event: the trades to persist, in
/// order, and at most one diagnostic line.
pub struct FrameOutcome {
    pub persist: Vec<TradeEvent>,
    pub diagnostic: Option<Diagnostic>,
}

pub open spec fn persist_view(o: FrameOutcome) -> Seq<TradeView> {
    o.persist@.map_values(|e: TradeEvent| e@)
}

/// The diagnostic a decoded payload calls for.
pub open spec fn payload_diagnostic(b: Seq<u8>, d: Option<Diagnostic>) -> bool {
    match decode_spec(b) {
        Err(DecodeError::Encoding) => d == Some(Diagnostic::Encoding),
        Err(DecodeError::MalformedPayload) => d == Some(Diagnostic::MalformedPayload),
        Ok((kind, _)) => if kind == "trade"@ {
            d is None
        } else {
            d is Some && d->0 is SkippedType && d->0->SkippedType_0@ == kind
        },
    }
}

pub open spec fn payload_trades(b: Seq<u8>) -> Seq<TradeView> {
    match decode_spec(b) {
        Ok((_, trades)) => trades,
        Err(_) => Seq::empty(),
    }
}

/// Handles one inbound event. A payload yields its trades; a payload that
/// does not decode, an envelope of another type and a transport error each
/// yield one diagnostic and nothing to persist. Nothing here ends the loop.
pub fn handle_inbound(event: Inbound) -> (r: FrameOutcome)
    ensures
        match event {
            Inbound::Payload(b) => persist_view(r) == payload_trades(b@) && payload_diagnostic(
                b@,
                r.diagnostic,
            ),
            Inbound::TransportError(e) => r.persist@.len() == 0 && r.diagnostic == Some(
                Diagnostic::Transport(e),
            ),
            Inbound::NonText => r.persist@.len() == 0 && r.diagnostic == Some(
                Diagnostic::NonTextFrame,
            ),
        },
{
    match event {
        Inbound::Payload(b) => match decode(b.as_slice()) {
            Err(DecodeError::Encoding) => FrameOutcome {
                persist: Vec::new(),
                diagnostic: Some(Diagnostic::Encoding),
            },
            Err(DecodeError::MalformedPayload) => FrameOutcome {
                persist: Vec::new(),
                diagnostic: Some(Diagnostic::MalformedPayload),
            },
            Ok(d) => {
                let trade = String::from_str("trade");
                if d.kind == trade {
                    FrameOutcome { persist: d.events, diagnostic: None }
                } else {
                    FrameOutcome { persist: d.events, diagnostic: Some(Diagnostic::SkippedType(d.kind)) }
                }
            },
        },
        Inbound::TransportError(e) => FrameOutcome {
            persist: Vec::new(),
            diagnostic: Some(Diagnostic::Transport(e)),
        },
        Inbound::NonText => FrameOutcome {
            persist: Vec::new(),
            diagnostic: Some(Diagnostic::NonTextFrame),
        },
    }
}

/// The line logged for one subscribe write of `directive`.
pub open spec fn subscription_line(directive: String, result: Result<(), String>) -> Diagnostic {
    match result {
        Ok(()) => Diagnostic::Subscribed(directive),
        Err(e) => Diagnostic::SubscriptionWrite(e),
    }
}

/// The line logged for one subscribe write: the directive sent, or the cause
/// of the failure. A failure is only reported; the next tick sends again.
pub fn after_subscription_write(directive: String, result: Result<(), String>) -> (r: Diagnostic)
    ensures
        r == subscription_line(directive, result),
{
    match result {
        Ok(()) => Diagnostic::Subscribed(directive),
        Err(e) => Diagnostic::SubscriptionWrite(e),
    }
}

/// The trades of one frame being handed to the sink, one insert at a time.
pub struct PersistQueue {
    events: Vec<TradeEvent>,
    next: usize,
}

impl PersistQueue {
    pub closed spec fn events(&self) -> Seq<TradeView> {
        self.events@.map_values(|e: TradeEvent| e@)
    }

    /// How many inserts have been attempted.
    pub closed spec fn attempted(&self) -> nat {
        self.next as nat
    }

    pub closed spec fn wf(&self) -> bool {
        self.next <= self.events@.len()
    }

    pub fn new(events: Vec<TradeEvent>) -> (r: PersistQueue)
        ensures
            r.wf(),
            r.events() == events@.map_values(|e: TradeEvent| e@),
            r.attempted() == 0,
    {
        PersistQueue { events, next: 0 }
    }

    /// The trade to insert next, if any is left.
    pub fn pending(&self) -> (r: Option<&TradeEvent>)
        requires
            self.wf(),
        ensures
            r is Some <==> self.attempted() < self.events().len(),
            r is Some ==> r->0@ == self.events()[self.attempted() as int],
    {
        if self.next < self.events.len() {
            Some(&self.events[self.next])
        } else {
            None
        }
    }

    /// Records the outcome of inserting the pending trade. Success or failure,
    /// the queue moves on to the next trade; a failure yields one diagnostic.
    pub fn record(&mut self, result: Result<(), String>) -> (r: Option<Diagnostic>)
        requires
            old(self).wf(),
            old(self).attempted() < old(self).events().len(),
        ensures
            final(self).wf(),
            final(self).events() == old(self).events(),
            final(self).attempted() == old(self).attempted() + 1,
            match result {
                Ok(()) => r is None,
                Err(e) => r == Some(Diagnostic::Storage(e)),
            },
    {
        let len = self.events.len();
        assert(self.events().len() == len);
        self.next = self.next + 1;
        match result {
            Ok(()) => None,
            Err(e) => Some(Diagnostic::Storage(e)),
        }
    }
}

} // verus!
