use vstd::prelude::*;
use vstd::string::StringExecFns;
use crate::book::{OrderBookSnapshot, SnapV, decode_snapshot, snapshot_of};
use crate::json::{envelope_payload, extract_payload, json_of, parse_json};
use crate::metrics::{Config, DerivedMetrics, FrameOutcome, derive_metrics, snapshot_outcome};

verus! {

/// The snapshot one inbound text frame carries: the parsed tree, the
/// envelope path inside it, and the payload decoded into a book; `None`
/// as soon as one of the three is missing.
pub open spec fn frame_snapshot(text: Seq<char>) -> Option<SnapV> {
    match json_of(text) {
        None => None,
        Some(v) => match envelope_payload(v) {
            None => None,
            Some(p) => snapshot_of(p),
        },
    }
}

/// What one inbound text frame comes to under the given policy.
pub open spec fn frame_outcome(text: Seq<char>, cfg: Config) -> FrameOutcome {
    match frame_snapshot(text) {
        None => FrameOutcome::Ignored,
        Some(snap) => snapshot_outcome(snap, cfg),
    }
}

/// Runs one text frame through parse, envelope lookup and shape decode.
pub fn decode_frame(text: &str) -> (r: Option<OrderBookSnapshot>)
    ensures
        match r {
            Some(s) => frame_snapshot(text@) == Some(s.model()),
            None => frame_snapshot(text@) is None,
        },
{
    let tree = match parse_json(text) {
        Some(t) => t,
        None => {
            return None;
        },
    };
    let payload = match extract_payload(&tree) {
        Some(p) => p,
        None => {
            return None;
        },
    };
    decode_snapshot(payload)
}

/// The whole per-frame pipeline: decode, then derive.
pub fn process_frame(text: &str, cfg: &Config) -> (r: FrameOutcome)
    requires
        cfg.valid(),
    ensures
        r == frame_outcome(text@, *cfg),
{
    match decode_frame(text) {
        Some(snap) => derive_metrics(&snap, cfg),
        None => FrameOutcome::Ignored,
    }
}

/// Where the session stands in its life cycle.
#[derive(Clone, Copy, PartialEq, Eq, Structural, Debug)]
pub enum SessionState {
    Connecting,
    Subscribed,
    Streaming,
    Closed,
    Failed,
}

/// Model of one thing the transport reported to the session.
pub enum EventV {
    HandshakeOk,
    HandshakeFailed,
    SubscribeSent,
    SubscribeFailed,
    TextFrame(Seq<char>),
    CloseFrame,
    TransportError,
    OtherFrame,
}

/// One thing the transport reported to the session.
pub enum SessionEvent {
    /// The transport and protocol handshake went through.
    HandshakeOk,
    /// The handshake was rejected or the connection failed.
    HandshakeFailed,
    /// The one subscription request went out.
    SubscribeSent,
    /// The subscription request could not be sent.
    SubscribeFailed,
    /// A text frame arrived.
    TextFrame(String),
    /// The peer signalled normal closure.
    CloseFrame,
    /// A transport-level read error.
    TransportError,
    /// Any other frame kind: binary, ping, pong.
    OtherFrame,
}

impl SessionEvent {
    pub open spec fn model(self) -> EventV {
        match self {
            SessionEvent::HandshakeOk => EventV::HandshakeOk,
            SessionEvent::HandshakeFailed => EventV::HandshakeFailed,
            SessionEvent::SubscribeSent => EventV::SubscribeSent,
            SessionEvent::SubscribeFailed => EventV::SubscribeFailed,
            SessionEvent::TextFrame(s) => EventV::TextFrame(s@),
            SessionEvent::CloseFrame => EventV::CloseFrame,
            SessionEvent::TransportError => EventV::TransportError,
            SessionEvent::OtherFrame => EventV::OtherFrame,
        }
    }
}

/// Model of what the surrounding process is asked to do after one step.
pub enum ActionV {
    Proceed,
    SendSubscribe,
    Publish(SnapV, DerivedMetrics),
    LogPriceError,
    FinishClean,
    ReportFailure,
}

/// What the surrounding process is asked to do after one step.
pub enum SessionAction {
    /// Nothing; wait for the next event.
    Proceed,
    /// Send the one subscription request.
    SendSubscribe,
    /// Print the snapshot and its derived metrics.
    Publish(OrderBookSnapshot, DerivedMetrics),
    /// Log that a well-shaped frame carried a non-numeric best price.
    LogPriceError,
    /// The peer closed; end the loop without an error.
    FinishClean,
    /// Surface a terminal session error, then end the loop.
    ReportFailure,
}

impl SessionAction {
    pub open spec fn model(self) -> ActionV {
        match self {
            SessionAction::Proceed => ActionV::Proceed,
            SessionAction::SendSubscribe => ActionV::SendSubscribe,
            SessionAction::Publish(s, m) => ActionV::Publish(s.model(), m),
            SessionAction::LogPriceError => ActionV::LogPriceError,
            SessionAction::FinishClean => ActionV::FinishClean,
            SessionAction::ReportFailure => ActionV::ReportFailure,
        }
    }
}

/// The session state machine: next state and requested action for one
/// event. `Closed` and `Failed` are terminal and absorb every event; an
/// event that a state has no transition for leaves the state unchanged.
pub open spec fn step_spec(s: SessionState, e: EventV, cfg: Config) -> (SessionState, ActionV) {
    match s {
        SessionState::Connecting => match e {
            EventV::HandshakeOk => (SessionState::Subscribed, ActionV::SendSubscribe),
            EventV::HandshakeFailed => (SessionState::Failed, ActionV::ReportFailure),
            _ => (SessionState::Connecting, ActionV::Proceed),
        },
        SessionState::Subscribed => match e {
            EventV::SubscribeSent => (SessionState::Streaming, ActionV::Proceed),
            EventV::SubscribeFailed => (SessionState::Failed, ActionV::ReportFailure),
            _ => (SessionState::Subscribed, ActionV::Proceed),
        },
        SessionState::Streaming => match e {
            EventV::TextFrame(text) => match frame_snapshot(text) {
                None => (SessionState::Streaming, ActionV::Proceed),
                Some(snap) => match snapshot_outcome(snap, cfg) {
                    FrameOutcome::Metrics(m) => (
                        SessionState::Streaming,
                        ActionV::Publish(snap, m),
                    ),
                    FrameOutcome::PriceError => (SessionState::Streaming, ActionV::LogPriceError),
                    _ => (SessionState::Streaming, ActionV::Proceed),
                },
            },
            EventV::CloseFrame => (SessionState::Closed, ActionV::FinishClean),
            EventV::TransportError => (SessionState::Failed, ActionV::ReportFailure),
            _ => (SessionState::Streaming, ActionV::Proceed),
        },
        SessionState::Closed => (SessionState::Closed, ActionV::Proceed),
        SessionState::Failed => (SessionState::Failed, ActionV::Proceed),
    }
}

/// Advances the session by one event: per-frame decoding and derivation
/// happen here; all I/O is left to the caller through the action.
pub fn session_step(state: SessionState, event: SessionEvent, cfg: &Config) -> (r: (
    SessionState,
    SessionAction,
))
    requires
        cfg.valid(),
    ensures
        r.0 == step_spec(state, event.model(), *cfg).0,
        r.1.model() == step_spec(state, event.model(), *cfg).1,
{
    match state {
        SessionState::Connecting => match event {
            SessionEvent::HandshakeOk => (SessionState::Subscribed, SessionAction::SendSubscribe),
            SessionEvent::HandshakeFailed => (SessionState::Failed, SessionAction::ReportFailure),
            _ => (SessionState::Connecting, SessionAction::Proceed),
        },
        SessionState::Subscribed => match event {
            SessionEvent::SubscribeSent => (SessionState::Streaming, SessionAction::Proceed),
            SessionEvent::SubscribeFailed => (SessionState::Failed, SessionAction::ReportFailure),
            _ => (SessionState::Subscribed, SessionAction::Proceed),
        },
        SessionState::Streaming => match event {
            SessionEvent::TextFrame(text) => match decode_frame(text.as_str()) {
                None => (SessionState::Streaming, SessionAction::Proceed),
                Some(snap) => match derive_metrics(&snap, cfg) {
                    FrameOutcome::Metrics(m) => (
                        SessionState::Streaming,
                        SessionAction::Publish(snap, m),
                    ),
                    FrameOutcome::PriceError => (
                        SessionState::Streaming,
                        SessionAction::LogPriceError,
                    ),
                    _ => (SessionState::Streaming, SessionAction::Proceed),
                },
            },
            SessionEvent::CloseFrame => (SessionState::Closed, SessionAction::FinishClean),
            SessionEvent::TransportError => (SessionState::Failed, SessionAction::ReportFailure),
            _ => (SessionState::Streaming, SessionAction::Proceed),
        },
        SessionState::Closed => (SessionState::Closed, SessionAction::Proceed),
        SessionState::Failed => (SessionState::Failed, SessionAction::Proceed),
    }
}

pub open spec fn digit_char_of(d: int) -> char {
    if d == 0 {
        '0'
    } else if d == 1 {
        '1'
    } else if d == 2 {
        '2'
    } else if d == 3 {
        '3'
    } else if d == 4 {
        '4'
    } else if d == 5 {
        '5'
    } else if d == 6 {
        '6'
    } else if d == 7 {
        '7'
    } else if d == 8 {
        '8'
    } else {
        '9'
    }
}

/// The decimal text of a non-negative number, most significant digit
/// first, without leading zeroes.
pub open spec fn dec_of(n: int) -> Seq<char>
    decreases n,
{
    if n < 10 {
        seq![digit_char_of(n)]
    } else {
        dec_of(n / 10) + seq![digit_char_of(n % 10)]
    }
}

fn digit_str(d: u64) -> (r: &'static str)
    requires
        d < 10,
    ensures
        r@ == seq![digit_char_of(d as int)],
{
    proof {
        reveal_strlit("0");
        reveal_strlit("1");
        reveal_strlit("2");
        reveal_strlit("3");
        reveal_strlit("4");
        reveal_strlit("5");
        reveal_strlit("6");
        reveal_strlit("7");
        reveal_strlit("8");
        reveal_strlit("9");
        assert("0"@ =~= seq!['0']);
        assert("1"@ =~= seq!['1']);
        assert("2"@ =~= seq!['2']);
        assert("3"@ =~= seq!['3']);
        assert("4"@ =~= seq!['4']);
        assert("5"@ =~= seq!['5']);
        assert("6"@ =~= seq!['6']);
        assert("7"@ =~= seq!['7']);
        assert("8"@ =~= seq!['8']);
        assert("9"@ =~= seq!['9']);
    }
    match d {
        0 => "0",
        1 => "1",
        2 => "2",
        3 => "3",
        4 => "4",
        5 => "5",
        6 => "6",
        7 => "7",
        8 => "8",
        _ => "9",
    }
}

/// Appends the decimal text of `n`.
fn push_dec(s: &mut String, n: u64)
    ensures
        final(s)@ == old(s)@ + dec_of(n as int),
    decreases n,
{
    if n >= 10 {
        push_dec(s, n / 10);
        s.append(digit_str(n % 10));
        proof {
            assert(s@ =~= old(s)@ + dec_of(n as int));
        }
    } else {
        s.append(digit_str(n));
    }
}

/// Builds the one subscription request the session sends after the
/// handshake: a JSON object naming the method, the channel, the
/// instrument, and a request id. The exact text produced is stated;
/// channel and instrument are inserted verbatim, so callers pass plain
/// names without quotes or backslashes.
pub fn subscribe_message(channel: &str, coin: &str, id: u64) -> (r: String)
    ensures
        r@ == "{\"method\":\"subscribe\",\"params\":{\"channel\":\""@ + channel@
            + "\",\"coin\":\""@ + coin@ + "\"},\"id\":"@ + dec_of(id as int) + "}"@,
{
    let mut s = String::new();
    s.append("{\"method\":\"subscribe\",\"params\":{\"channel\":\"");
    s.append(channel);
    s.append("\",\"coin\":\"");
    s.append(coin);
    s.append("\"},\"id\":");
    push_dec(&mut s, id);
    s.append("}");
    proof {
        assert(s@ =~= "{\"method\":\"subscribe\",\"params\":{\"channel\":\""@ + channel@
            + "\",\"coin\":\""@ + coin@ + "\"},\"id\":"@ + dec_of(id as int) + "}"@);
    }
    s
}

/// The actions a session starting in `s` requests over a whole event
/// sequence.
pub open spec fn run_actions(s: SessionState, evs: Seq<EventV>, cfg: Config) -> Seq<ActionV>
    decreases evs.len(),
{
    if evs.len() == 0 {
        Seq::empty()
    } else {
        seq![step_spec(s, evs[0], cfg).1] + run_actions(
            step_spec(s, evs[0], cfg).0,
            evs.skip(1),
            cfg,
        )
    }
}

/// The state a session starting in `s` is left in after a whole event
/// sequence.
pub open spec fn run_state(s: SessionState, evs: Seq<EventV>, cfg: Config) -> SessionState
    decreases evs.len(),
{
    if evs.len() == 0 {
        s
    } else {
        run_state(step_spec(s, evs[0], cfg).0, evs.skip(1), cfg)
    }
}

/// How many of the requested actions surface a terminal error.
pub open spec fn failure_count(actions: Seq<ActionV>) -> int
    decreases actions.len(),
{
    if actions.len() == 0 {
        0int
    } else {
        (if actions[0] is ReportFailure {
            1int
        } else {
            0int
        }) + failure_count(actions.skip(1))
    }
}

/// How many of the requested actions publish derived metrics.
pub open spec fn publish_count(actions: Seq<ActionV>) -> int
    decreases actions.len(),
{
    if actions.len() == 0 {
        0int
    } else {
        (if actions[0] is Publish {
            1int
        } else {
            0int
        }) + publish_count(actions.skip(1))
    }
}

/// How many of the inbound frames carry a well-shaped two-sided book
/// with numeric best prices.
pub open spec fn metrics_frame_count(evs: Seq<EventV>, cfg: Config) -> int
    decreases evs.len(),
{
    if evs.len() == 0 {
        0int
    } else {
        (if evs[0] matches EventV::TextFrame(t) && frame_outcome(t, cfg) is Metrics {
            1int
        } else {
            0int
        }) + metrics_frame_count(evs.skip(1), cfg)
    }
}

/// Law: over any sequence of inbound text frames, a streaming session
/// publishes exactly one metric set per well-shaped two-sided snapshot,
/// however much noise is interleaved.
pub proof fn lemma_publish_count_matches(evs: Seq<EventV>, cfg: Config)
    requires
        forall|i: int| 0 <= i < evs.len() ==> evs[i] is TextFrame,
    ensures
        run_state(SessionState::Streaming, evs, cfg) == SessionState::Streaming,
        publish_count(run_actions(SessionState::Streaming, evs, cfg)) == metrics_frame_count(
            evs,
            cfg,
        ),
    decreases evs.len(),
{
    if evs.len() > 0 {
        assert(evs[0] is TextFrame);
        lemma_publish_count_matches(evs.skip(1), cfg);
        assert(run_actions(SessionState::Streaming, evs, cfg).skip(1) =~= run_actions(
            SessionState::Streaming,
            evs.skip(1),
            cfg,
        ));
    }
}

/// Law: a terminal session performs no further I/O: from `Closed` or
/// `Failed`, every later event is absorbed with nothing to do.
pub proof fn lemma_terminal_absorbs(s: SessionState, evs: Seq<EventV>, cfg: Config)
    requires
        s == SessionState::Closed || s == SessionState::Failed,
    ensures
        run_state(s, evs, cfg) == s,
        run_actions(s, evs, cfg) =~= Seq::new(evs.len(), |i: int| ActionV::Proceed),
        failure_count(run_actions(s, evs, cfg)) == 0,
    decreases evs.len(),
{
    if evs.len() > 0 {
        lemma_terminal_absorbs(s, evs.skip(1), cfg);
        assert(run_actions(s, evs, cfg).skip(1) =~= run_actions(s, evs.skip(1), cfg));
    }
}

/// Law: a frame that does not parse as JSON, or parses without the
/// envelope path, yields no snapshot and no metrics, and a streaming
/// session goes on streaming with nothing to do.
pub proof fn lemma_noise_frame_inert(text: Seq<char>, cfg: Config)
    requires
        match json_of(text) {
            None => true,
            Some(v) => envelope_payload(v) is None,
        },
    ensures
        frame_snapshot(text) is None,
        frame_outcome(text, cfg) == FrameOutcome::Ignored,
        step_spec(SessionState::Streaming, EventV::TextFrame(text), cfg) == (
            SessionState::Streaming,
            ActionV::Proceed,
        ),
{
}

/// Law: a frame whose book has an empty side yields no metrics and no
/// error, and the session goes on streaming.
pub proof fn lemma_one_sided_frame_inert(text: Seq<char>, cfg: Config, snap: SnapV)
    requires
        frame_snapshot(text) == Some(snap),
        snap.asks.len() == 0 || snap.bids.len() == 0,
    ensures
        frame_outcome(text, cfg) == FrameOutcome::OneSided,
        step_spec(SessionState::Streaming, EventV::TextFrame(text), cfg) == (
            SessionState::Streaming,
            ActionV::Proceed,
        ),
{
}

/// Law: a two-sided book whose best price text is not numeric is
/// rejected with a logged error for that frame alone: the session goes
/// on streaming and surfaces no terminal failure.
pub proof fn lemma_bad_price_logged_not_fatal(text: Seq<char>, cfg: Config, snap: SnapV)
    requires
        frame_snapshot(text) == Some(snap),
        snap.asks.len() > 0,
        snap.bids.len() > 0,
        crate::price::scaled_price_of(snap.bids[0].px) is None || crate::price::scaled_price_of(
            snap.asks[0].px,
        ) is None,
    ensures
        frame_outcome(text, cfg) == FrameOutcome::PriceError,
        step_spec(SessionState::Streaming, EventV::TextFrame(text), cfg) == (
            SessionState::Streaming,
            ActionV::LogPriceError,
        ),
{
}

/// Law: a remote close frame ends the session cleanly: whatever events
/// follow, the session is `Closed`, the close itself asks for a clean
/// finish, and no error is ever surfaced.
pub proof fn lemma_close_ends_clean(evs: Seq<EventV>, cfg: Config)
    requires
        evs.len() > 0,
        evs[0] == EventV::CloseFrame,
    ensures
        run_state(SessionState::Streaming, evs, cfg) == SessionState::Closed,
        run_actions(SessionState::Streaming, evs, cfg)[0] == ActionV::FinishClean,
        failure_count(run_actions(SessionState::Streaming, evs, cfg)) == 0,
{
    lemma_terminal_absorbs(SessionState::Closed, evs.skip(1), cfg);
    assert(run_actions(SessionState::Streaming, evs, cfg).skip(1) =~= run_actions(
        SessionState::Closed,
        evs.skip(1),
        cfg,
    ));
}

/// Law: a transport error while streaming ends the session in `Failed`
/// and surfaces exactly one error, whatever events follow.
pub proof fn lemma_transport_error_reported_once(evs: Seq<EventV>, cfg: Config)
    requires
        evs.len() > 0,
        evs[0] == EventV::TransportError,
    ensures
        run_state(SessionState::Streaming, evs, cfg) == SessionState::Failed,
        run_actions(SessionState::Streaming, evs, cfg)[0] == ActionV::ReportFailure,
        failure_count(run_actions(SessionState::Streaming, evs, cfg)) == 1,
{
    lemma_terminal_absorbs(SessionState::Failed, evs.skip(1), cfg);
    assert(run_actions(SessionState::Streaming, evs, cfg).skip(1) =~= run_actions(
        SessionState::Failed,
        evs.skip(1),
        cfg,
    ));
}

} // verus!
