use sui_events_core::digits::u64_to_dec;
use sui_events_core::frame::DropReason;
use sui_events_core::frame::FrameData;
use sui_events_core::frame::FrameOutcome;
use sui_events_core::frame::process_frame;
use sui_events_core::json::decode_text_frame;
use sui_events_core::requests::subscribe_request_format;
use sui_events_core::requests::unsubscribe_request_format;
use sui_events_core::tracker::SubscriptionTracking;
use sui_events_core::tracker::TrackingState;
use sui_events_core::workdirs;
use sui_events_core::writer::ChannelMsg;
use sui_events_core::writer::MsgKind;
use sui_events_core::writer::WriterAction;
use sui_events_core::writer::accepts_control_msg;
use sui_events_core::writer::collapse_redundant_triggers;
use sui_events_core::writer::forward_copy;
use sui_events_core::writer::route_writer_msg;

const PKG_A: &str = "aa00000000000000000000000000000000000000000000000000000000000001";

fn subscribed_tracker(sub: u64) -> SubscriptionTracking {
    SubscriptionTracking {
        package_id: PKG_A.to_string(),
        package_uuid: "uuid-a".to_string(),
        package_name: "pkgA".to_string(),
        package_timestamp: "1000".to_string(),
        state: TrackingState::Subscribed,
        subscription_number: sub,
        unsubscribed_id: Some(sub),
        last_request_seq: 1,
        last_request_time_ms: 10_000,
        request_retry: 0,
        remove_requested: false,
        waiting_response: false,
    }
}

fn notification(sub: u64, package_id_field: &str) -> String {
    format!(
        "{{\"jsonrpc\":\"2.0\",\"method\":\"suix_subscribeEvent\",\"params\":{{\"subscription\":{},\"result\":{{\"packageId\":\"{}\",\"transactionModule\":\"Counter\"}}}}}}",
        sub, package_id_field
    )
}

#[test]
fn decimal_rendering_is_exact() {
    assert_eq!(u64_to_dec(0), "0");
    assert_eq!(u64_to_dec(7), "7");
    assert_eq!(u64_to_dec(10), "10");
    assert_eq!(u64_to_dec(409), "409");
    assert_eq!(u64_to_dec(u64::MAX), "18446744073709551615");
}

#[test]
fn request_formats_match_the_wire_patterns() {
    assert_eq!(
        subscribe_request_format(1, "abc123"),
        "{\"jsonrpc\":\"2.0\",\"method\":\"suix_subscribeEvent\",\"id\":1,\"params\":[{\"Package\":\"abc123\"}]}"
    );
    assert_eq!(
        unsubscribe_request_format(2, 42),
        "{\"jsonrpc\":\"2.0\",\"method\":\"suix_unsubscribeEvent\",\"id\":2,\"params\":[42]}"
    );
}

#[test]
fn workdir_tables() {
    assert_eq!(workdirs::workdir_name(workdirs::WORKDIR_IDX_LOCALNET), Some("localnet"));
    assert_eq!(workdirs::workdir_name(workdirs::WORKDIR_IDX_MAINNET), Some("mainnet"));
    assert_eq!(workdirs::workdir_name(9), None);
    assert_eq!(
        workdirs::workdir_socket_url(workdirs::WORKDIR_IDX_LOCALNET),
        Some("ws://localhost:9000")
    );
    assert_eq!(
        workdirs::workdir_socket_url(workdirs::WORKDIR_IDX_TESTNET),
        Some("wss://fullnode.testnet.sui.io:443")
    );
    assert_eq!(workdirs::workdir_socket_url(200), None);
}

#[test]
fn retry_reporting_cadence() {
    let reported: Vec<u64> =
        (0..8).filter(|r| sui_events_core::tracker::retry_should_report(*r)).collect();
    assert_eq!(reported, vec![1, 4, 7]);
}

fn msg(kind: MsgKind, command: Option<&str>) -> ChannelMsg {
    ChannelMsg {
        kind,
        command: command.map(|c| c.to_string()),
        params: vec!["p".to_string()],
        has_data_json: false,
        workdir_idx: Some(0),
        has_resp_channel: true,
    }
}

#[test]
fn writer_routing_rules() {
    assert_eq!(route_writer_msg(&msg(MsgKind::Audit, None)), WriterAction::ForwardAll);
    assert_eq!(route_writer_msg(&msg(MsgKind::Update, None)), WriterAction::ForwardAll);
    assert_eq!(
        route_writer_msg(&msg(MsgKind::Exec, Some("add_sui_event"))),
        WriterAction::ForwardDbOnly
    );
    assert_eq!(route_writer_msg(&msg(MsgKind::Exec, Some("other_cmd"))), WriterAction::Drop);
    assert_eq!(route_writer_msg(&msg(MsgKind::Exec, None)), WriterAction::Drop);
    assert_eq!(route_writer_msg(&msg(MsgKind::Other, None)), WriterAction::Drop);
}

#[test]
fn control_message_admission() {
    assert!(accepts_control_msg(MsgKind::Audit, MsgKind::Audit, Some(1), 1));
    assert!(!accepts_control_msg(MsgKind::Update, MsgKind::Audit, Some(1), 1));
    assert!(!accepts_control_msg(MsgKind::Audit, MsgKind::Audit, Some(2), 1));
    assert!(!accepts_control_msg(MsgKind::Audit, MsgKind::Audit, None, 1));
}

#[test]
fn forwarded_copy_drops_response_channel() {
    let m = msg(MsgKind::Audit, Some("x"));
    let c = forward_copy(&m);
    assert_eq!(c.kind, MsgKind::Audit);
    assert_eq!(c.command.as_deref(), Some("x"));
    assert_eq!(c.params, vec!["p".to_string()]);
    assert_eq!(c.workdir_idx, Some(0));
    assert!(!c.has_resp_channel);
}

#[test]
fn queue_hygiene_collapses_duplicate_triggers() {
    let q = vec![
        msg(MsgKind::Audit, None),
        msg(MsgKind::Audit, None),
        msg(MsgKind::Update, None),
        msg(MsgKind::Update, None),
        msg(MsgKind::Exec, Some("add_sui_event")),
        msg(MsgKind::Audit, None),
        msg(MsgKind::Audit, None),
    ];
    let out = collapse_redundant_triggers(q);
    let kinds: Vec<MsgKind> = out.iter().map(|m| m.kind).collect();
    assert_eq!(kinds, vec![MsgKind::Audit, MsgKind::Update, MsgKind::Exec, MsgKind::Audit]);
}

#[test]
fn notification_routes_to_subscribed_tracker() {
    let trackers = vec![subscribed_tracker(42)];
    let text = notification(42, &format!("0x{}", PKG_A));
    let fd = decode_text_frame(&text).unwrap();
    let (_, outcome) = process_frame(trackers, &fd);
    match outcome {
        FrameOutcome::Event { package_uuid, package_name } => {
            assert_eq!(package_uuid, "uuid-a");
            assert_eq!(package_name, "pkgA");
        },
        other => panic!("unexpected outcome {:?}", other),
    }
}

#[test]
fn notification_with_mismatched_package_id_is_dropped() {
    let trackers = vec![subscribed_tracker(42)];
    let text = notification(
        42,
        "0xbb00000000000000000000000000000000000000000000000000000000000002",
    );
    let fd = decode_text_frame(&text).unwrap();
    let (_, outcome) = process_frame(trackers, &fd);
    assert!(matches!(outcome, FrameOutcome::Ignored { reason: DropReason::PackageIdMismatch }));
}

#[test]
fn notification_without_matching_subscription_is_dropped() {
    let trackers = vec![subscribed_tracker(42)];
    let text = notification(43, &format!("0x{}", PKG_A));
    let fd = decode_text_frame(&text).unwrap();
    let (_, outcome) = process_frame(trackers, &fd);
    assert!(matches!(outcome, FrameOutcome::Ignored { reason: DropReason::UnknownSubscription }));
}

#[test]
fn malformed_frames_are_dropped_with_their_reason() {
    let trackers = vec![subscribed_tracker(42)];
    assert!(decode_text_frame("not json at all").is_none());

    let fd = decode_text_frame("{\"jsonrpc\":\"2.0\"}").unwrap();
    let (trackers, outcome) = process_frame(trackers, &fd);
    assert!(matches!(outcome, FrameOutcome::Ignored { reason: DropReason::MissingMethod }));

    let fd = decode_text_frame("{\"method\":\"other\"}").unwrap();
    let (trackers, outcome) = process_frame(trackers, &fd);
    assert!(matches!(outcome, FrameOutcome::Ignored { reason: DropReason::UnexpectedMethod }));

    let fd = decode_text_frame("{\"method\":\"suix_subscribeEvent\"}").unwrap();
    let (trackers, outcome) = process_frame(trackers, &fd);
    assert!(matches!(outcome, FrameOutcome::Ignored { reason: DropReason::MissingParams }));

    let fd = decode_text_frame("{\"method\":\"suix_subscribeEvent\",\"params\":{}}").unwrap();
    let (trackers, outcome) = process_frame(trackers, &fd);
    assert!(matches!(outcome, FrameOutcome::Ignored { reason: DropReason::MissingSubscription }));

    let fd = decode_text_frame(
        "{\"method\":\"suix_subscribeEvent\",\"params\":{\"subscription\":42}}",
    )
    .unwrap();
    let (trackers, outcome) = process_frame(trackers, &fd);
    assert!(matches!(outcome, FrameOutcome::Ignored { reason: DropReason::MissingResultObject }));

    let fd = decode_text_frame(
        "{\"method\":\"suix_subscribeEvent\",\"params\":{\"subscription\":42,\"result\":{}}}",
    )
    .unwrap();
    let (trackers, outcome) = process_frame(trackers, &fd);
    assert!(matches!(outcome, FrameOutcome::Ignored { reason: DropReason::MissingPackageId }));

    let fd = decode_text_frame(
        "{\"method\":\"suix_subscribeEvent\",\"params\":{\"subscription\":42,\"result\":{\"packageId\":\"no-prefix\"}}}",
    )
    .unwrap();
    let (_, outcome) = process_frame(trackers, &fd);
    assert!(matches!(outcome, FrameOutcome::Ignored { reason: DropReason::InvalidPackageId }));
}

#[test]
fn correlated_subscribe_response_without_result_is_dropped() {
    let mut t = subscribed_tracker(0);
    t.state = TrackingState::Subscribing;
    t.subscription_number = 0;
    t.unsubscribed_id = None;
    t.waiting_response = true;
    t.last_request_seq = 7;
    let fd = decode_text_frame("{\"jsonrpc\":\"2.0\",\"id\":7}").unwrap();
    let (trackers, outcome) = process_frame(vec![t], &fd);
    assert!(matches!(outcome, FrameOutcome::Ignored { reason: DropReason::MissingResult }));
    // The tracker still waits; the normal retry path will resolve it.
    assert!(trackers[0].waiting_response);
    assert_eq!(trackers[0].unsubscribed_id, None);
}

#[test]
fn extracted_fields_survive_decoding() {
    let fd: FrameData = decode_text_frame(
        "{\"jsonrpc\":\"2.0\",\"id\":5,\"result\":99,\"method\":\"m\",\"params\":{\"subscription\":3,\"result\":{\"packageId\":\"0xab\"}}}",
    )
    .unwrap();
    assert_eq!(fd.id, 5);
    assert_eq!(fd.result_num, Some(99));
    assert_eq!(fd.method.as_deref(), Some("m"));
    assert_eq!(fd.subscription, Some(3));
    assert!(fd.params_present);
    assert!(fd.result_present);
    assert_eq!(fd.package_id_field.as_deref(), Some("0xab"));
}
