use sui_events_core::desired::DesiredSet;
use sui_events_core::desired::PackageInstance;
use sui_events_core::frame::FrameOutcome;
use sui_events_core::json::decode_text_frame;
use sui_events_core::reconcile::process_audit;
use sui_events_core::reconcile::process_update;
use sui_events_core::session::WebSocketManagement;
use sui_events_core::tracker::SubscriptionTracking;
use sui_events_core::tracker::TrackingState;

const PKG_A: &str = "aa00000000000000000000000000000000000000000000000000000000000001";
const PKG_B: &str = "bb00000000000000000000000000000000000000000000000000000000000002";

fn instance_a() -> PackageInstance {
    PackageInstance {
        package_id: PKG_A.to_string(),
        package_uuid: "uuid-a".to_string(),
        package_name: "pkgA".to_string(),
        package_timestamp: "1000".to_string(),
    }
}

fn desired_a() -> DesiredSet {
    DesiredSet { items: vec![instance_a()] }
}

fn subscribe_response(id: u64, result: u64) -> String {
    format!("{{\"jsonrpc\":\"2.0\",\"id\":{},\"result\":{}}}", id, result)
}

/// Drives an empty tracker set against `{pkgA}` until subscribed.
fn subscribed_state() -> (Vec<SubscriptionTracking>, WebSocketManagement) {
    let mut ws = WebSocketManagement::new();
    let desired = desired_a();
    let (trackers, _, reqs) = process_audit(Vec::new(), &mut ws, &desired, 10_000);
    assert_eq!(reqs.len(), 1);
    let fd = decode_text_frame(&subscribe_response(1, 42)).unwrap();
    let (trackers, outcome) = sui_events_core::frame::process_frame(trackers, &fd);
    assert!(matches!(outcome, FrameOutcome::SubscribeConfirmed { .. }));
    let (trackers, changed, reqs) = process_audit(trackers, &mut ws, &desired, 12_000);
    assert!(changed);
    assert!(reqs.is_empty());
    assert!(matches!(trackers[0].state, TrackingState::Subscribed));
    (trackers, ws)
}

#[test]
fn happy_path_subscribe() {
    let mut ws = WebSocketManagement::new();
    let desired = desired_a();
    let (trackers, changed, reqs) = process_audit(Vec::new(), &mut ws, &desired, 10_000);
    assert!(changed);
    assert_eq!(trackers.len(), 1);
    assert!(matches!(trackers[0].state, TrackingState::Subscribing));
    assert_eq!(reqs.len(), 1);
    assert_eq!(
        reqs[0],
        format!(
            "{{\"jsonrpc\":\"2.0\",\"method\":\"suix_subscribeEvent\",\"id\":1,\"params\":[{{\"Package\":\"{}\"}}]}}",
            PKG_A
        )
    );

    let fd = decode_text_frame(&subscribe_response(1, 42)).unwrap();
    let (trackers, outcome) = sui_events_core::frame::process_frame(trackers, &fd);
    match outcome {
        FrameOutcome::SubscribeConfirmed { ref package_id } => assert_eq!(package_id, PKG_A),
        ref other => panic!("unexpected outcome {:?}", other),
    }
    assert_eq!(trackers[0].subscription_number, 42);
    assert_eq!(trackers[0].unsubscribed_id, Some(42));

    let (trackers, changed, reqs) = process_audit(trackers, &mut ws, &desired, 12_000);
    assert!(changed);
    assert!(reqs.is_empty());
    assert!(matches!(trackers[0].state, TrackingState::Subscribed));
}

#[test]
fn subscribe_retry_is_rate_limited() {
    let mut ws = WebSocketManagement::new();
    let desired = desired_a();
    let (trackers, _, reqs) = process_audit(Vec::new(), &mut ws, &desired, 10_000);
    assert_eq!(reqs.len(), 1);
    // A second audit within two seconds resends nothing.
    let (trackers, changed, reqs) = process_audit(trackers, &mut ws, &desired, 11_500);
    assert!(!changed);
    assert!(reqs.is_empty());
    // After the window, the subscribe is retried with a fresh id.
    let (_, _, reqs) = process_audit(trackers, &mut ws, &desired, 12_100);
    assert_eq!(reqs.len(), 1);
    assert!(reqs[0].contains("\"id\":2,"));
}

#[test]
fn update_inserts_and_requests_audit() {
    let desired = desired_a();
    let (trackers, trig) = process_update(Vec::new(), &desired);
    assert!(trig);
    assert_eq!(trackers.len(), 1);
    assert!(matches!(trackers[0].state, TrackingState::Disconnected));
    // A second update with the same desired set inserts nothing.
    let (trackers, trig) = process_update(trackers, &desired);
    assert!(!trig);
    assert_eq!(trackers.len(), 1);
}

#[test]
fn remove_and_unsubscribe() {
    let (trackers, mut ws) = subscribed_state();
    let empty = DesiredSet { items: Vec::new() };
    // The audit that marks the tracker also sends the unsubscribe with
    // the stored handle, in the same tick.
    let (trackers, changed, reqs) = process_audit(trackers, &mut ws, &empty, 20_000);
    assert!(changed);
    assert!(matches!(trackers[0].state, TrackingState::Unsubscribing));
    assert!(trackers[0].remove_requested);
    assert_eq!(reqs.len(), 1);
    assert_eq!(
        reqs[0],
        "{\"jsonrpc\":\"2.0\",\"method\":\"suix_unsubscribeEvent\",\"id\":2,\"params\":[42]}"
    );
    // The correlated response makes the record terminal on the next audit.
    let fd = decode_text_frame("{\"jsonrpc\":\"2.0\",\"id\":2,\"result\":true}").unwrap();
    let (trackers, outcome) = sui_events_core::frame::process_frame(trackers, &fd);
    assert!(matches!(outcome, FrameOutcome::UnsubscribeConfirmed { .. }));
    assert_eq!(trackers[0].unsubscribed_id, None);
    let (trackers, changed, reqs) = process_audit(trackers, &mut ws, &empty, 22_000);
    assert!(changed);
    assert!(reqs.is_empty());
    assert!(matches!(trackers[0].state, TrackingState::ReadyToDelete));
    // The following audit evicts it.
    let (trackers, _, _) = process_audit(trackers, &mut ws, &empty, 24_000);
    assert!(trackers.is_empty());
}

#[test]
fn unsubscribe_send_is_deferred_only_by_the_rate_limit() {
    let (trackers, mut ws) = subscribed_state();
    let empty = DesiredSet { items: Vec::new() };
    // Removal inside the resend window of the last request: the record
    // transitions at once but the frame is deferred...
    let (trackers, changed, reqs) = process_audit(trackers, &mut ws, &empty, 11_000);
    assert!(changed);
    assert!(reqs.is_empty());
    assert!(matches!(trackers[0].state, TrackingState::Unsubscribing));
    // ...to the next audit outside the window.
    let (trackers, _, reqs) = process_audit(trackers, &mut ws, &empty, 13_000);
    assert_eq!(reqs.len(), 1);
    assert!(reqs[0].contains("suix_unsubscribeEvent"));
    assert!(matches!(trackers[0].state, TrackingState::Unsubscribing));
}

#[test]
fn unsubscribe_timeout_reaches_terminal_state() {
    let (mut trackers, mut ws) = subscribed_state();
    let empty = DesiredSet { items: Vec::new() };
    let mut now: u64 = 20_000;
    let mut audits = 0;
    // The server never answers the unsubscribe; retries are spaced by the
    // rate limit and abandoned after more than ten.
    while !trackers.is_empty() && audits < 20 {
        let (t2, _, _) = process_audit(trackers, &mut ws, &empty, now);
        trackers = t2;
        now += 2_000;
        audits += 1;
    }
    assert!(trackers.is_empty(), "tracker not evicted after {} audits", audits);
    // Terminal within twelve audits from Subscribed, evicted on the next.
    assert!(audits <= 13);
}

#[test]
fn reconnect_resubscribes_from_scratch() {
    // A session that subscribed successfully...
    let (_trackers, _ws) = subscribed_state();
    // ...is lost: the supervisor restarts the worker with fresh state.
    let mut ws = WebSocketManagement::new();
    let desired = desired_a();
    let (trackers, _, reqs) = process_audit(Vec::new(), &mut ws, &desired, 60_000);
    assert!(matches!(trackers[0].state, TrackingState::Subscribing));
    assert_eq!(reqs.len(), 1);
    assert!(reqs[0].contains("suix_subscribeEvent"));
    assert!(reqs[0].contains("\"id\":1,"));
}

#[test]
fn audit_is_idempotent_once_settled() {
    let (trackers, mut ws) = subscribed_state();
    let desired = desired_a();
    let seq_before = ws.seq_number;
    // The subscribed state is a fixpoint: an audit reports nothing.
    let (trackers, changed, reqs) = process_audit(trackers, &mut ws, &desired, 30_000);
    assert!(!changed);
    assert!(reqs.is_empty());
    assert_eq!(ws.seq_number, seq_before);
    // And so does the audit after it.
    let (trackers, changed, reqs) = process_audit(trackers, &mut ws, &desired, 30_000);
    assert!(!changed);
    assert!(reqs.is_empty());
    assert_eq!(ws.seq_number, seq_before);
    assert_eq!(trackers.len(), 1);
    assert!(matches!(trackers[0].state, TrackingState::Subscribed));
}

#[test]
fn reconciliation_is_deterministic() {
    // Two runs from equal inputs produce the same requests and states.
    let desired = DesiredSet { items: vec![instance_a(), PackageInstance {
        package_id: PKG_B.to_string(),
        package_uuid: "uuid-b".to_string(),
        package_name: "pkgB".to_string(),
        package_timestamp: "2000".to_string(),
    }] };
    let mut ws1 = WebSocketManagement::new();
    let mut ws2 = WebSocketManagement::new();
    let (t1, c1, r1) = process_audit(Vec::new(), &mut ws1, &desired, 10_000);
    let (t2, c2, r2) = process_audit(Vec::new(), &mut ws2, &desired, 10_000);
    assert_eq!(c1, c2);
    assert_eq!(r1, r2);
    assert_eq!(t1.len(), t2.len());
    for (a, b) in t1.iter().zip(t2.iter()) {
        assert_eq!(a.package_id, b.package_id);
        assert_eq!(a.last_request_seq, b.last_request_seq);
        assert!(matches!(
            (&a.state, &b.state),
            (TrackingState::Subscribing, TrackingState::Subscribing)
        ));
    }
}

#[test]
fn request_ids_are_strictly_increasing() {
    let mut ws = WebSocketManagement::new();
    let a = ws.mint_request_id();
    let b = ws.mint_request_id();
    let c = ws.mint_request_id();
    assert_eq!((a, b, c), (1, 2, 3));
}

#[test]
fn subscribed_needs_prior_response() {
    // A tracker in Subscribing without a correlated response never moves
    // to Subscribed, however many audits run.
    let mut ws = WebSocketManagement::new();
    let desired = desired_a();
    let (trackers, _, _) = process_audit(Vec::new(), &mut ws, &desired, 10_000);
    let (trackers, _, _) = process_audit(trackers, &mut ws, &desired, 13_000);
    let (trackers, _, _) = process_audit(trackers, &mut ws, &desired, 16_000);
    assert!(matches!(trackers[0].state, TrackingState::Subscribing));
    assert_eq!(trackers[0].unsubscribed_id, None);
}

#[test]
fn stale_terminal_record_is_replaced_by_the_new_instance() {
    // A terminal record of an old instance whose package id is desired
    // again under a fresh identity: one audit evicts it, the next one
    // creates a fresh tracker and subscribes it.
    let (trackers, mut ws) = subscribed_state();
    let empty = DesiredSet { items: Vec::new() };
    let mut trackers = trackers;
    let mut now: u64 = 20_000;
    // Drive the old instance to ReadyToDelete without evicting it:
    // stop as soon as the record is terminal.
    for _ in 0..20 {
        if trackers.is_empty() || matches!(trackers[0].state, TrackingState::ReadyToDelete) {
            break;
        }
        let (t2, _, _) = process_audit(trackers, &mut ws, &empty, now);
        trackers = t2;
        now += 2_000;
    }
    assert!(matches!(trackers[0].state, TrackingState::ReadyToDelete));
    // The same package id returns with a new uuid and timestamp.
    let renewed = DesiredSet { items: vec![PackageInstance {
        package_id: PKG_A.to_string(),
        package_uuid: "uuid-a2".to_string(),
        package_name: "pkgA".to_string(),
        package_timestamp: "3000".to_string(),
    }] };
    // The terminal record still occupies the id: this audit only evicts.
    let (trackers, _, reqs) = process_audit(trackers, &mut ws, &renewed, now);
    assert!(trackers.is_empty());
    assert!(reqs.is_empty());
    // The next audit tracks and subscribes the new instance.
    let (trackers, changed, reqs) = process_audit(trackers, &mut ws, &renewed, now + 2_000);
    assert!(changed);
    assert_eq!(trackers.len(), 1);
    assert_eq!(trackers[0].package_uuid, "uuid-a2");
    assert!(matches!(trackers[0].state, TrackingState::Subscribing));
    assert_eq!(reqs.len(), 1);
    assert!(reqs[0].contains("suix_subscribeEvent"));
}
