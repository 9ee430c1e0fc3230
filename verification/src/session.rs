//! One connection's lifecycle: handshake, liveness-guarded
//! streaming, classified termination.
//!
//! The session is pure logic: the caller owns the socket, feeds every
//! observed event in arrival order, and performs the actions the
//! session hands back.  The contract on [`Session::on_event`] fixes
//! the whole policy: a heartbeat is answered with the identical
//! payload in the same step (so the reply is on the wire before the
//! next frame is consumed), a text frame yields exactly one decode
//! outcome for the sink, and a link silent for longer than the
//! staleness threshold terminates with `Stale` — also on a bare
//! timer tick, independent of frame traffic.

use vstd::prelude::*;
use crate::records::{DecodeOutcome, DecodeOutcomeV, MinedTransactions, MinedTransactionsV,
    decode_tx_frame, decode_tx_frame_spec};
use crate::blocks::{EthereumBlock, decode_block_frame, decode_block_frame_spec};
use crate::records::BlockV;


verus! {

/// A link with no heartbeat for longer than this many milliseconds
/// (600 seconds) is considered dead.
pub const STALE_AFTER_MS: u64 = 600000;

/// Which stream the session subscribes to.
#[derive(Clone, Copy, PartialEq, Eq, Structural)]
pub enum SubscriptionKind {
    MinedTransactions,
    NewHeads,
}

/// Where the session stands in its lifecycle.
#[derive(Clone, Copy, PartialEq, Eq, Structural)]
pub enum Phase {
    Subscribing,
    Streaming,
    Terminated,
}

/// How a session ended.  Produced exactly once per session.
pub enum SessionOutcome {
    /// The remote closed the stream, or it ended cleanly.
    Closed,
    /// A transport-level failure, with its description.
    Error(String),
    /// No heartbeat for longer than the staleness threshold.
    Stale,
}

#[verifier::ext_equal]
pub ghost enum SessionOutcomeV {
    Closed,
    Error(Seq<char>),
    Stale,
}

impl SessionOutcome {
    pub open spec fn model(self) -> SessionOutcomeV {
        match self {
            SessionOutcome::Closed => SessionOutcomeV::Closed,
            SessionOutcome::Error(d) => SessionOutcomeV::Error(d@),
            SessionOutcome::Stale => SessionOutcomeV::Stale,
        }
    }
}

/// One observation on the connection, in arrival order.
pub enum SessionEvent {
    /// A heartbeat control frame with its payload.
    Ping(Vec<u8>),
    /// A text frame.
    Text(String),
    /// A close frame or the end of the stream.
    Closed,
    /// A transport-level read or write failure, with its description.
    TransportError(String),
    /// The liveness timer fired; carries no data.
    Tick,
}

/// What one frame decoded to, tagged by stream kind.
pub enum SessionOutput {
    Tx(DecodeOutcome<MinedTransactions>),
    Block(DecodeOutcome<EthereumBlock>),
}

#[verifier::ext_equal]
pub ghost enum SessionOutputV {
    Tx(DecodeOutcomeV<MinedTransactionsV>),
    Block(DecodeOutcomeV<BlockV>),
}

impl SessionOutput {
    pub open spec fn model(self) -> SessionOutputV {
        match self {
            SessionOutput::Tx(o) => SessionOutputV::Tx(o.model()),
            SessionOutput::Block(o) => SessionOutputV::Block(o.model()),
        }
    }
}

/// Decode-or-passthrough, by stream kind.
pub open spec fn decode_for(kind: SubscriptionKind, s: Seq<char>) -> SessionOutputV {
    match kind {
        SubscriptionKind::MinedTransactions => SessionOutputV::Tx(decode_tx_frame_spec(s)),
        SubscriptionKind::NewHeads => SessionOutputV::Block(decode_block_frame_spec(s)),
    }
}

/// Everything one step asks the caller to do.
pub struct StepResult {
    /// A heartbeat reply to send, with the identical payload, before
    /// the next frame is consumed.
    pub pong: Option<Vec<u8>>,
    /// A decode outcome to forward to the sink, unconditionally.
    pub output: Option<SessionOutput>,
    /// Set exactly when the session terminated with this step.
    pub outcome: Option<SessionOutcome>,
}

/// The staleness test at `now`, given the last heartbeat instant.
pub open spec fn stale_at(last: u64, now: u64) -> bool {
    now - last > STALE_AFTER_MS
}

pub struct Session {
    pub kind: SubscriptionKind,
    pub phase: Phase,
    /// Set at session start; reset on every inbound heartbeat.
    pub last_heartbeat_at: u64,
}

impl Session {
    /// A fresh session for one socket, at the instant the transport
    /// connected.  The liveness clock starts now.
    pub fn new(kind: SubscriptionKind, now: u64) -> (s: Session)
        ensures
            s.kind == kind,
            s.phase == Phase::Subscribing,
            s.last_heartbeat_at == now,
    {
        Session { kind, phase: Phase::Subscribing, last_heartbeat_at: now }
    }

    /// The method name this session subscribes with.
    pub fn subscription_name(&self) -> (r: &'static str)
        ensures
            r@ == subscription_name_of(self.kind),
    {
        match self.kind {
            SubscriptionKind::MinedTransactions => "alchemy_minedTransactions",
            SubscriptionKind::NewHeads => "newHeads",
        }
    }

    /// The subscribe request was flushed: streaming begins.
    pub fn on_subscribed(&mut self)
        requires
            old(self).phase == Phase::Subscribing,
        ensures
            final(self).phase == Phase::Streaming,
            final(self).kind == old(self).kind,
            final(self).last_heartbeat_at == old(self).last_heartbeat_at,
    {
        self.phase = Phase::Streaming;
    }

    /// The instant at which, with no further heartbeat, the link
    /// becomes stale; the caller schedules a `Tick` for it.
    pub fn deadline(&self) -> (r: u64)
        requires
            self.last_heartbeat_at + STALE_AFTER_MS + 1 <= u64::MAX,
        ensures
            r == self.last_heartbeat_at + STALE_AFTER_MS + 1,
    {
        self.last_heartbeat_at + STALE_AFTER_MS + 1
    }

    /// One step of the streaming loop.  `now` comes from a monotonic
    /// clock, so it never precedes the last heartbeat instant.
    pub fn on_event(&mut self, e: SessionEvent, now: u64) -> (r: StepResult)
        requires
            old(self).phase == Phase::Streaming,
            now >= old(self).last_heartbeat_at,
        ensures
            final(self).kind == old(self).kind,
            // the session terminates with this step exactly when it
            // hands back an outcome, and never on a mere text frame
            (r.outcome is Some) <==> (final(self).phase == Phase::Terminated),
            (r.outcome is None) <==> (final(self).phase == Phase::Streaming),
            // a link silent past the threshold dies as Stale whatever
            // arrived, frames or a bare timer tick
            stale_at(old(self).last_heartbeat_at, now) ==> r.pong is None && r.output is None
                && (r.outcome matches Some(o2) && o2.model() == SessionOutcomeV::Stale),
            !stale_at(old(self).last_heartbeat_at, now) ==> match e {
                // every heartbeat is answered in the same step with
                // the identical payload, and resets the liveness clock
                SessionEvent::Ping(p) => r.pong matches Some(q) && q@ == p@ && r.output is None
                    && r.outcome is None && final(self).last_heartbeat_at == now,
                // every text frame yields exactly one decode outcome,
                // decoded or verbatim, and never ends the session
                SessionEvent::Text(t) => r.pong is None && r.outcome is None
                    && (r.output matches Some(o) && o.model() == decode_for(old(self).kind, t@))
                    && final(self).last_heartbeat_at == old(self).last_heartbeat_at,
                SessionEvent::Closed => r.pong is None && r.output is None && (r.outcome
                    matches Some(o2) && o2.model() == SessionOutcomeV::Closed),
                SessionEvent::TransportError(d) => r.pong is None && r.output is None && (r.outcome
                    matches Some(o2) && o2.model() == SessionOutcomeV::Error(d@)),
                SessionEvent::Tick => r.pong is None && r.output is None && r.outcome is None
                    && final(self).last_heartbeat_at == old(self).last_heartbeat_at,
            },
    {
        if now - self.last_heartbeat_at > STALE_AFTER_MS {
            self.phase = Phase::Terminated;
            return StepResult { pong: None, output: None, outcome: Some(SessionOutcome::Stale) };
        }
        match e {
            SessionEvent::Ping(p) => {
                self.last_heartbeat_at = now;
                StepResult { pong: Some(p), output: None, outcome: None }
            }
            SessionEvent::Text(t) => {
                let out = match self.kind {
                    SubscriptionKind::MinedTransactions => SessionOutput::Tx(
                        decode_tx_frame(t.as_str()),
                    ),
                    SubscriptionKind::NewHeads => SessionOutput::Block(
                        decode_block_frame(t.as_str()),
                    ),
                };
                StepResult { pong: None, output: Some(out), outcome: None }
            }
            SessionEvent::Closed => {
                self.phase = Phase::Terminated;
                StepResult { pong: None, output: None, outcome: Some(SessionOutcome::Closed) }
            }
            SessionEvent::TransportError(d) => {
                self.phase = Phase::Terminated;
                StepResult {
                    pong: None,
                    output: None,
                    outcome: Some(SessionOutcome::Error(d)),
                }
            }
            SessionEvent::Tick => StepResult { pong: None, output: None, outcome: None },
        }
    }
}

pub open spec fn subscription_name_of(kind: SubscriptionKind) -> Seq<char> {
    match kind {
        SubscriptionKind::MinedTransactions => "alchemy_minedTransactions"@,
        SubscriptionKind::NewHeads => "newHeads"@,
    }
}

/// The exact text of the one-time subscribe request.
pub open spec fn subscribe_request_text(name: Seq<char>) -> Seq<char> {
    "{\"jsonrpc\":\"2.0\",\"id\":1,\"method\":\"eth_subscribe\",\"params\":[\""@ + name + "\"]}"@
}

/// Builds the subscribe request sent once, right after connecting.
pub fn subscribe_request(name: &str) -> (r: String)
    ensures
        r@ == subscribe_request_text(name@),
{
    let mut out = String::from_str("{\"jsonrpc\":\"2.0\",\"id\":1,\"method\":\"eth_subscribe\",\"params\":[\"");
    out.append(name);
    out.append("\"]}");
    out
}

/// A frame that does not decode is forwarded verbatim: the decoder
/// either yields a typed envelope or hands back exactly the original
/// text, never anything else.
pub proof fn lemma_decode_never_drops(s: Seq<char>)
    ensures
        decode_tx_frame_spec(s) matches DecodeOutcomeV::Decoded(e)
            || decode_tx_frame_spec(s) == DecodeOutcomeV::<MinedTransactionsV>::Raw(s),
        decode_block_frame_spec(s) matches DecodeOutcomeV::Decoded(e)
            || decode_block_frame_spec(s) == DecodeOutcomeV::<BlockV>::Raw(s),
{
}

} // verus!

