use market_feed::metrics::{Config, DerivedMetrics, FrameOutcome};
use market_feed::price::parse_price;
use market_feed::session::{SessionAction, SessionEvent, SessionState, process_frame, session_step};
use market_feed::session::{decode_frame, subscribe_message};

fn default_config() -> Config {
    Config::new(1, 10).expect("default policy is within bounds")
}

const SNAPSHOT_100_102: &str = r#"{"channel":"l2Book","data":{"data":{"coin":"ETH","time":1700000000,"asks":[{"px":"102.0","sz":"5.0"},{"px":"103.0","sz":"1.0"}],"bids":[{"px":"100.0","sz":"3.0"}]}}}"#;
const SNAPSHOT_101_101: &str = r#"{"data":{"data":{"coin":"ETH","asks":[{"px":"101.0","sz":"2.0"}],"bids":[{"px":"101.0","sz":"4.0"}]}}}"#;

#[test]
fn non_json_frame_is_ignored() {
    let cfg = default_config();
    assert_eq!(process_frame("not json at all", &cfg), FrameOutcome::Ignored);
    assert_eq!(process_frame("", &cfg), FrameOutcome::Ignored);
    assert_eq!(process_frame("{\"truncated\":", &cfg), FrameOutcome::Ignored);
}

#[test]
fn json_without_envelope_is_ignored() {
    let cfg = default_config();
    // subscription acknowledgement
    assert_eq!(
        process_frame(r#"{"id":1,"result":"ok"}"#, &cfg),
        FrameOutcome::Ignored
    );
    // heartbeat with a scalar data field: the nested path is absent
    assert_eq!(
        process_frame(r#"{"data":"ping"}"#, &cfg),
        FrameOutcome::Ignored
    );
    // book-shaped payload at the top level, not inside the envelope
    assert_eq!(
        process_frame(
            r#"{"coin":"ETH","asks":[{"px":"1","sz":"1"}],"bids":[{"px":"1","sz":"1"}]}"#,
            &cfg
        ),
        FrameOutcome::Ignored
    );
}

#[test]
fn payload_of_wrong_shape_is_ignored() {
    let cfg = default_config();
    // missing bids
    assert_eq!(
        process_frame(r#"{"data":{"data":{"coin":"ETH","asks":[]}}}"#, &cfg),
        FrameOutcome::Ignored
    );
    // a rung without a px field
    assert_eq!(
        process_frame(
            r#"{"data":{"data":{"coin":"ETH","asks":[{"sz":"1"}],"bids":[]}}}"#,
            &cfg
        ),
        FrameOutcome::Ignored
    );
    // px numeric instead of text
    assert_eq!(
        process_frame(
            r#"{"data":{"data":{"coin":"ETH","asks":[{"px":102.0,"sz":"1"}],"bids":[]}}}"#,
            &cfg
        ),
        FrameOutcome::Ignored
    );
    // envelope path present but the payload is not an object
    assert_eq!(
        process_frame(r#"{"data":{"data":[1,2,3]}}"#, &cfg),
        FrameOutcome::Ignored
    );
}

#[test]
fn two_sided_snapshot_yields_exact_metrics() {
    let cfg = default_config();
    let r = process_frame(SNAPSHOT_100_102, &cfg);
    assert_eq!(
        r,
        FrameOutcome::Metrics(DerivedMetrics {
            mid_e9: 101_000_000_000,
            margin_num_e9: 101_000_000_000,
            leverage: 10,
        })
    );
}

#[test]
fn decoded_snapshot_carries_the_payload() {
    let snap = decode_frame(SNAPSHOT_100_102).expect("well-shaped frame decodes");
    assert_eq!(snap.instrument, "ETH");
    assert_eq!(snap.asks.len(), 2);
    assert_eq!(snap.bids.len(), 1);
    assert_eq!(snap.asks[0].px, "102.0");
    assert_eq!(snap.asks[0].sz, "5.0");
    assert_eq!(snap.asks[1].px, "103.0");
    assert_eq!(snap.bids[0].px, "100.0");
    assert_eq!(snap.bids[0].sz, "3.0");
}

#[test]
fn one_sided_book_yields_no_metrics() {
    let cfg = default_config();
    assert_eq!(
        process_frame(
            r#"{"data":{"data":{"coin":"ETH","asks":[],"bids":[{"px":"100.0","sz":"1"}]}}}"#,
            &cfg
        ),
        FrameOutcome::OneSided
    );
    assert_eq!(
        process_frame(
            r#"{"data":{"data":{"coin":"ETH","asks":[{"px":"100.0","sz":"1"}],"bids":[]}}}"#,
            &cfg
        ),
        FrameOutcome::OneSided
    );
}

#[test]
fn non_numeric_best_price_is_a_frame_error() {
    let cfg = default_config();
    assert_eq!(
        process_frame(
            r#"{"data":{"data":{"coin":"ETH","asks":[{"px":"abc","sz":"1"}],"bids":[{"px":"100.0","sz":"1"}]}}}"#,
            &cfg
        ),
        FrameOutcome::PriceError
    );
    assert_eq!(
        process_frame(
            r#"{"data":{"data":{"coin":"ETH","asks":[{"px":"101.0","sz":"1"}],"bids":[{"px":"1.2.3","sz":"1"}]}}}"#,
            &cfg
        ),
        FrameOutcome::PriceError
    );
}

#[test]
fn noise_interleaved_stream_publishes_exactly_twice() {
    // heartbeat, snapshot(bid=100.0, ask=102.0), ack, snapshot(bid=101.0, ask=101.0)
    let frames = vec![
        r#"{"method":"ping"}"#.to_string(),
        SNAPSHOT_100_102.to_string(),
        r#"{"id":1,"result":"ok"}"#.to_string(),
        SNAPSHOT_101_101.to_string(),
    ];
    let cfg = default_config();
    let mut state = SessionState::Streaming;
    let mut published: Vec<DerivedMetrics> = Vec::new();
    for f in frames {
        let (next, action) = session_step(state, SessionEvent::TextFrame(f), &cfg);
        state = next;
        assert_eq!(state, SessionState::Streaming);
        if let SessionAction::Publish(_, m) = action {
            published.push(m);
        }
    }
    assert_eq!(published.len(), 2);
    // both snapshots have mid 101.00 and margin 10.1000
    for m in &published {
        assert_eq!(m.mid_e9, 101_000_000_000);
        assert_eq!(m.margin_num_e9, 101_000_000_000);
        assert_eq!(m.leverage, 10);
    }
}

#[test]
fn handshake_and_subscription_transitions() {
    let cfg = default_config();
    let (s, a) = session_step(SessionState::Connecting, SessionEvent::HandshakeOk, &cfg);
    assert_eq!(s, SessionState::Subscribed);
    assert!(matches!(a, SessionAction::SendSubscribe));
    let (s, a) = session_step(s, SessionEvent::SubscribeSent, &cfg);
    assert_eq!(s, SessionState::Streaming);
    assert!(matches!(a, SessionAction::Proceed));
    let (s, a) = session_step(SessionState::Connecting, SessionEvent::HandshakeFailed, &cfg);
    assert_eq!(s, SessionState::Failed);
    assert!(matches!(a, SessionAction::ReportFailure));
}

#[test]
fn remote_close_ends_loop_without_error() {
    let cfg = default_config();
    let (s, a) = session_step(SessionState::Streaming, SessionEvent::CloseFrame, &cfg);
    assert_eq!(s, SessionState::Closed);
    assert!(matches!(a, SessionAction::FinishClean));
    // terminal: later events are absorbed silently
    let (s, a) = session_step(s, SessionEvent::TextFrame(SNAPSHOT_100_102.to_string()), &cfg);
    assert_eq!(s, SessionState::Closed);
    assert!(matches!(a, SessionAction::Proceed));
}

#[test]
fn transport_error_reports_exactly_once() {
    let cfg = default_config();
    let events = vec![
        SessionEvent::TransportError,
        SessionEvent::TextFrame(SNAPSHOT_100_102.to_string()),
        SessionEvent::CloseFrame,
        SessionEvent::TransportError,
    ];
    let mut state = SessionState::Streaming;
    let mut failures = 0;
    for e in events {
        let (next, action) = session_step(state, e, &cfg);
        state = next;
        if matches!(action, SessionAction::ReportFailure) {
            failures += 1;
        }
    }
    assert_eq!(state, SessionState::Failed);
    assert_eq!(failures, 1);
}

#[test]
fn other_frames_are_ignored_while_streaming() {
    let cfg = default_config();
    let (s, a) = session_step(SessionState::Streaming, SessionEvent::OtherFrame, &cfg);
    assert_eq!(s, SessionState::Streaming);
    assert!(matches!(a, SessionAction::Proceed));
}

#[test]
fn price_texts_parse_to_scaled_values() {
    assert_eq!(parse_price("100.0"), Some(10_000_000_000));
    assert_eq!(parse_price("102.0"), Some(10_200_000_000));
    assert_eq!(parse_price("0.00000001"), Some(1));
    assert_eq!(parse_price("7"), Some(700_000_000));
    assert_eq!(parse_price("12345678.87654321"), Some(1_234_567_887_654_321));
    assert_eq!(parse_price("00.5"), Some(50_000_000));
    // largest accepted numeral: eight digits on each side of the point
    assert_eq!(parse_price("99999999.99999999"), Some(9_999_999_999_999_999));
}

#[test]
fn malformed_price_texts_are_rejected() {
    assert_eq!(parse_price(""), None);
    assert_eq!(parse_price("."), None);
    assert_eq!(parse_price("1."), None);
    assert_eq!(parse_price(".5"), None);
    assert_eq!(parse_price("-1"), None);
    assert_eq!(parse_price("+1"), None);
    assert_eq!(parse_price("1e5"), None);
    assert_eq!(parse_price("1.2.3"), None);
    assert_eq!(parse_price("123456789"), None); // nine integer digits
    assert_eq!(parse_price("1.123456789"), None); // nine fractional digits
    assert_eq!(parse_price("NaN"), None);
    assert_eq!(parse_price("inf"), None);
}

#[test]
fn subscription_request_text_is_exact() {
    let msg = subscribe_message("l2Book", "ETH", 1);
    assert_eq!(
        msg,
        r#"{"method":"subscribe","params":{"channel":"l2Book","coin":"ETH"},"id":1}"#
    );
    let msg = subscribe_message("trades", "BTC", 42);
    assert_eq!(
        msg,
        r#"{"method":"subscribe","params":{"channel":"trades","coin":"BTC"},"id":42}"#
    );
}

#[test]
fn subscription_request_is_well_formed_json() {
    let msg = subscribe_message("l2Book", "ETH", 107);
    let v: serde_json::Value = serde_json::from_str(&msg).expect("parses as JSON");
    assert_eq!(v["method"], "subscribe");
    assert_eq!(v["params"]["channel"], "l2Book");
    assert_eq!(v["params"]["coin"], "ETH");
    assert_eq!(v["id"], 107);
}

#[test]
fn config_bounds_are_enforced() {
    assert!(Config::new(0, 10).is_none());
    assert!(Config::new(1, 0).is_none());
    assert!(Config::new(101, 10).is_none());
    assert!(Config::new(1, 1001).is_none());
    let c = Config::new(100, 1000).expect("bounds are inclusive");
    assert_eq!(c.position_size, 100);
    assert_eq!(c.leverage, 1000);
    let d = Config::default();
    assert_eq!(d.position_size, 1);
    assert_eq!(d.leverage, 10);
}

#[test]
fn position_and_leverage_scale_the_margin() {
    let cfg = Config::new(2, 5).expect("within bounds");
    let r = process_frame(SNAPSHOT_100_102, &cfg);
    match r {
        FrameOutcome::Metrics(m) => {
            assert_eq!(m.mid_e9, 101_000_000_000);
            // margin = mid × 2 / 5 = 40.4: numerator mid_e9 × 2 over 10^9 × 5
            assert_eq!(m.margin_num_e9, 202_000_000_000);
            assert_eq!(m.leverage, 5);
        }
        other => panic!("expected metrics, got {:?}", other),
    }
}
