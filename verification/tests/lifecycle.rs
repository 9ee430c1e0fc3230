use ethwatch::records::DecodeOutcome;
use ethwatch::session::{
    subscribe_request, Phase, Session, SessionEvent, SessionOutcome, SessionOutput,
    SubscriptionKind, STALE_AFTER_MS,
};
use ethwatch::supervisor::{EndpointDescriptor, Supervisor, RESTART_DELAY_MS};

fn streaming_session(kind: SubscriptionKind, now: u64) -> Session {
    let mut s = Session::new(kind, now);
    s.on_subscribed();
    s
}

fn notification_text() -> String {
    "{\"jsonrpc\":\"2.0\",\"method\":\"eth_subscription\",\"params\":{\"result\":{\"removed\":false,\"transaction\":{\"blockHash\":\"0xbeef\",\"blockNumber\":\"0x10\",\"from\":\"0xaaaa\",\"gas\":\"0x5208\",\"gasPrice\":\"0x3b9aca00\",\"hash\":\"0xcafe\",\"input\":\"0x\",\"nonce\":\"0x1\",\"to\":null,\"transactionIndex\":\"0x0\",\"value\":\"0x0\",\"type\":\"0x0\",\"v\":\"0x1b\",\"r\":\"0x1\",\"s\":\"0x2\",\"chainId\":\"0x1\"}},\"subscription\":\"0xbf52\"}}"
    .to_string()
}

#[test]
fn subscribe_request_exact_text() {
    assert_eq!(
        subscribe_request("newHeads"),
        "{\"jsonrpc\":\"2.0\",\"id\":1,\"method\":\"eth_subscribe\",\"params\":[\"newHeads\"]}"
    );
    assert_eq!(
        subscribe_request("alchemy_minedTransactions"),
        "{\"jsonrpc\":\"2.0\",\"id\":1,\"method\":\"eth_subscribe\",\"params\":[\"alchemy_minedTransactions\"]}"
    );
}

#[test]
fn heartbeat_is_echoed_same_step() {
    let mut s = streaming_session(SubscriptionKind::MinedTransactions, 1000);
    let payload = vec![1u8, 2, 3, 4];
    let step = s.on_event(SessionEvent::Ping(payload.clone()), 2000);
    assert_eq!(step.pong, Some(payload));
    assert!(step.output.is_none());
    assert!(step.outcome.is_none());
    assert_eq!(s.last_heartbeat_at, 2000);
    assert!(matches!(s.phase, Phase::Streaming));
}

#[test]
fn silence_past_threshold_is_stale_on_tick() {
    let mut s = streaming_session(SubscriptionKind::MinedTransactions, 0);
    // exactly at the threshold the link still lives
    let step = s.on_event(SessionEvent::Tick, STALE_AFTER_MS);
    assert!(step.outcome.is_none());
    // one instant past it, a bare timer tick kills the session
    let step = s.on_event(SessionEvent::Tick, STALE_AFTER_MS + 1);
    assert!(matches!(step.outcome, Some(SessionOutcome::Stale)));
    assert!(matches!(s.phase, Phase::Terminated));
}

#[test]
fn stale_wins_over_data_frames() {
    let mut s = streaming_session(SubscriptionKind::MinedTransactions, 0);
    // non-heartbeat traffic does not keep a silent link alive
    let step = s.on_event(SessionEvent::Text(notification_text()), STALE_AFTER_MS + 5);
    assert!(step.output.is_none());
    assert!(matches!(step.outcome, Some(SessionOutcome::Stale)));
}

#[test]
fn scenario_ack_then_null_to_notification() {
    let mut s = streaming_session(SubscriptionKind::MinedTransactions, 0);
    let ack = "{\"id\":1,\"result\":\"0xbf52\",\"jsonrpc\":\"2.0\"}";
    let step = s.on_event(SessionEvent::Text(ack.to_string()), 10);
    match step.output {
        Some(SessionOutput::Tx(DecodeOutcome::Raw(raw))) => assert_eq!(raw, ack),
        _ => panic!("acknowledgement must pass through raw"),
    }
    assert!(step.outcome.is_none(), "session must stay alive");
    let step = s.on_event(SessionEvent::Text(notification_text()), 20);
    match step.output {
        Some(SessionOutput::Tx(DecodeOutcome::Decoded(m))) => {
            match m.params.result.transaction {
                ethwatch::records::Transaction::Legacy { common } => {
                    assert!(common.to.is_none(), "null `to` must come out absent");
                    assert_eq!(common.gas, "0x5208");
                    assert_eq!(common.gas_price, "0x3b9aca00");
                }
                _ => panic!("wrong transaction kind"),
            }
        }
        _ => panic!("notification must decode"),
    }
}

#[test]
fn scenario_malformed_then_wellformed() {
    let mut s = streaming_session(SubscriptionKind::MinedTransactions, 0);
    let bad = "{\"jsonrpc\":\"2.0\",\"method\"";
    let step = s.on_event(SessionEvent::Text(bad.to_string()), 5);
    match step.output {
        Some(SessionOutput::Tx(DecodeOutcome::Raw(raw))) => assert_eq!(raw, bad),
        _ => panic!("malformed frame must pass through raw"),
    }
    assert!(matches!(s.phase, Phase::Streaming), "session must stay in streaming");
    let step = s.on_event(SessionEvent::Text(notification_text()), 6);
    assert!(matches!(
        step.output,
        Some(SessionOutput::Tx(DecodeOutcome::Decoded(_)))
    ));
}

#[test]
fn scenario_clean_close_then_cohort_restart() {
    let mut s = streaming_session(SubscriptionKind::MinedTransactions, 0);
    for k in 0..3u64 {
        let step = s.on_event(SessionEvent::Text(notification_text()), 10 + k);
        assert!(matches!(
            step.output,
            Some(SessionOutput::Tx(DecodeOutcome::Decoded(_)))
        ));
    }
    let step = s.on_event(SessionEvent::Closed, 40);
    assert!(matches!(step.outcome, Some(SessionOutcome::Closed)));
    assert!(matches!(s.phase, Phase::Terminated));

    let mut sup = Supervisor::new(vec![EndpointDescriptor {
        url: "wss://example/ws".to_string(),
        label: "Mainnet".to_string(),
    }]);
    sup.note_terminated(0, 40, SessionOutcome::Closed);
    assert!(sup.cohort_done());
    assert_eq!(sup.restart_at(), 40 + RESTART_DELAY_MS);

    // the next generation resumes delivering notifications
    let mut s2 = streaming_session(SubscriptionKind::MinedTransactions, sup.restart_at());
    let step = s2.on_event(SessionEvent::Text(notification_text()), sup.restart_at() + 1);
    assert!(matches!(
        step.output,
        Some(SessionOutput::Tx(DecodeOutcome::Decoded(_)))
    ));
}

#[test]
fn transport_error_carries_detail() {
    let mut s = streaming_session(SubscriptionKind::NewHeads, 0);
    let step = s.on_event(
        SessionEvent::TransportError("connection reset".to_string()),
        7,
    );
    match step.outcome {
        Some(SessionOutcome::Error(d)) => assert_eq!(d, "connection reset"),
        _ => panic!("transport failure must end as Error"),
    }
}

#[test]
fn cohort_restarts_after_latest_termination() {
    let descriptors = vec![
        EndpointDescriptor { url: "wss://a/ws".to_string(), label: "A".to_string() },
        EndpointDescriptor { url: "wss://b/ws".to_string(), label: "B".to_string() },
        EndpointDescriptor { url: "wss://c/ws".to_string(), label: "C".to_string() },
    ];
    let mut sup = Supervisor::new(descriptors);
    assert!(!sup.cohort_done());
    sup.note_terminated(1, 5000, SessionOutcome::Closed);
    assert!(!sup.cohort_done(), "one termination must not restart the cohort");
    sup.note_terminated(0, 90000, SessionOutcome::Stale);
    sup.note_terminated(2, 20000, SessionOutcome::Error("boom".to_string()));
    assert!(sup.cohort_done());
    // max of the three instants, not the min
    assert_eq!(sup.restart_at(), 90000 + RESTART_DELAY_MS);
}
