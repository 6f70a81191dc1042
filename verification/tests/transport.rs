//! End-to-end request/response scenarios over the stream link, run by
//! carrying real frames between the two endpoint cores, and the
//! correlation behaviors: single delivery, timeout, and unknown
//! responses.

use memori::handler::DeviceCore;
use memori::layout::MemoriLayout;
use memori::state::MemoriState;
use memori::stream::{
    decode_frame_payload, encode_frame, DeviceResponse, HostRequest, HostResponse, Message,
    MessageKind, Sequenced,
};
use memori::tcp_device::{DeviceDeliver, DeviceDispatch, DeviceTcpTransport};
use memori::tcp_host::{HostDeliver, HostDispatch, HostTcpTransport};
use memori::errors::TransError;
use memori::widgets::{MemoriWidget, Name, UpdateFrequency, WidgetId, WidgetKind};

fn simple_state(widget_ids: &[u32]) -> MemoriState {
    let widgets: Vec<MemoriWidget> = widget_ids
        .iter()
        .map(|id| {
            MemoriWidget::new(
                WidgetId(*id),
                WidgetKind::Name(Name::new(format!("w{}", id))),
                UpdateFrequency::Never,
                UpdateFrequency::Never,
            )
        })
        .collect();
    let frames = vec![MemoriLayout::Full(WidgetId(widget_ids[0]))];
    MemoriState::new(0, widgets, frames, 5)
}

/// Carry one message across the wire as the link would: frame it, split
/// header from payload, decode the payload on the far side.
fn over_the_wire(m: &Message) -> Message {
    let frame = encode_frame(m).expect("message should fit a frame");
    decode_frame_payload(&frame[4..]).expect("payload should decode")
}

#[test]
fn battery_request_round_trip() {
    // The host asks for the battery level; the device answers with the
    // level it holds; the host observes exactly that level.
    let expected_battery = 10;
    let host = HostTcpTransport::new();
    let mut host = host.establish();
    let device = DeviceTcpTransport::default();
    let mut device = device.establish();
    let mut core = DeviceCore::new(simple_state(&[1]), expected_battery);

    let (id, request) = host.begin_get_battery_level();
    let arrived = over_the_wire(&request);
    let dispatch = device.handle_message(arrived);
    let served = match dispatch {
        DeviceDispatch::PeerRequest(seq) => seq,
        other => panic!("expected a peer request, got {:?}", other),
    };
    let (resp, tasks) = core.handle_host_request(served.msg_kind);
    assert_eq!(tasks.len(), 0);
    let reply = device.frame_response(Sequenced::new(served.seq_num, resp));
    let arrived_back = over_the_wire(&reply);
    match host.handle_message(arrived_back) {
        HostDispatch::Delivered(delivered_id, HostDeliver::Battery(level)) => {
            assert_eq!(delivered_id, id);
            assert_eq!(level, expected_battery);
        },
        other => panic!("expected the battery level, got {:?}", other),
    }
}

#[test]
fn ping_round_trip_from_device() {
    // The device pings; the host answers; the device observes Ok(()).
    let mut device = DeviceTcpTransport::default().establish();
    let mut host = HostTcpTransport::new().establish();

    let (id, request) = device.begin_ping();
    assert_eq!(id, 1, "device sequence numbers start odd");
    let arrived = over_the_wire(&request);
    let served = match host.handle_message(arrived) {
        HostDispatch::PeerRequest(seq) => seq,
        other => panic!("expected a peer request, got {:?}", other),
    };
    // The host answers device pings with the built-in acknowledgement.
    let reply = host.frame_response(Sequenced::new(served.seq_num, memori::tcp_host::answer_ping()));
    let arrived_back = over_the_wire(&reply);
    match device.handle_message(arrived_back) {
        DeviceDispatch::Delivered(delivered_id, DeviceDeliver::Ping(result)) => {
            assert_eq!(delivered_id, id);
            assert_eq!(result, Ok(()));
        },
        other => panic!("expected the pong, got {:?}", other),
    }
}

#[test]
fn widget_fetch_hit_and_miss() {
    // The device holds widget 7; fetching 7 succeeds with its data,
    // fetching 999 reports WidgetNotFound.
    let mut host = HostTcpTransport::new().establish();
    let mut device = DeviceTcpTransport::default().establish();
    let mut core = DeviceCore::new(simple_state(&[7]), 100);

    for (wanted, should_hit) in [(7u32, true), (999u32, false)] {
        let (id, request) = host.begin_get_widget(WidgetId(wanted));
        let served = match device.handle_message(over_the_wire(&request)) {
            DeviceDispatch::PeerRequest(seq) => seq,
            other => panic!("expected a peer request, got {:?}", other),
        };
        let (resp, _) = core.handle_host_request(served.msg_kind);
        let reply = device.frame_response(Sequenced::new(served.seq_num, resp));
        match host.handle_message(over_the_wire(&reply)) {
            HostDispatch::Delivered(delivered_id, HostDeliver::Widget(result)) => {
                assert_eq!(delivered_id, id);
                if should_hit {
                    let w = result.expect("widget 7 should be found");
                    assert_eq!(w.id, WidgetId(7));
                } else {
                    assert_eq!(result, Err(TransError::WidgetNotFound));
                }
            },
            other => panic!("expected a widget result, got {:?}", other),
        }
    }
}

#[test]
fn timeout_then_retry_completes() {
    // The device never answers the first request; the host times out and
    // its correlation entry is gone. A retry completes normally.
    let mut host = HostTcpTransport::new().establish();
    let mut device = DeviceTcpTransport::default().establish();
    let mut core = DeviceCore::new(simple_state(&[0]), 50);

    let (first_id, _swallowed) = host.begin_get_widget(WidgetId(0));
    let err = host.on_timeout(first_id);
    assert_eq!(err, TransError::Timeout);

    // A late response to the timed-out request is dropped.
    let late = device.frame_response(
        Sequenced::new(first_id, DeviceResponse::WidgetGet(Err(TransError::WidgetNotFound))),
    );
    match host.handle_message(over_the_wire(&late)) {
        HostDispatch::DroppedUnknown(id) => assert_eq!(id, first_id),
        other => panic!("expected the late response to be dropped, got {:?}", other),
    }

    // The retry goes through.
    let (second_id, request) = host.begin_get_widget(WidgetId(0));
    assert_ne!(second_id, first_id);
    let served = match device.handle_message(over_the_wire(&request)) {
        DeviceDispatch::PeerRequest(seq) => seq,
        other => panic!("expected a peer request, got {:?}", other),
    };
    let (resp, _) = core.handle_host_request(served.msg_kind);
    let reply = device.frame_response(Sequenced::new(served.seq_num, resp));
    match host.handle_message(over_the_wire(&reply)) {
        HostDispatch::Delivered(id, HostDeliver::Widget(result)) => {
            assert_eq!(id, second_id);
            assert!(result.is_ok());
        },
        other => panic!("expected the retried widget, got {:?}", other),
    }
}

#[test]
fn at_most_one_delivery_per_message_id() {
    // Two responses arrive under the same identifier: the first is
    // delivered, the second finds no entry and is dropped.
    let mut host = HostTcpTransport::new().establish();
    let (id, _request) = host.begin_ping();
    let pong = Message { seq_num: id, kind: MessageKind::DeviceResponse(DeviceResponse::Pong) };
    match host.handle_message(over_the_wire(&pong)) {
        HostDispatch::Delivered(did, HostDeliver::Pong) => assert_eq!(did, id),
        other => panic!("expected the pong delivered, got {:?}", other),
    }
    let again = Message { seq_num: id, kind: MessageKind::DeviceResponse(DeviceResponse::Pong) };
    match host.handle_message(over_the_wire(&again)) {
        HostDispatch::DroppedUnknown(did) => assert_eq!(did, id),
        other => panic!("expected the duplicate dropped, got {:?}", other),
    }
}

#[test]
fn variant_mismatch_is_protocol_issue() {
    // A pong arriving for a widget request is a protocol issue.
    let mut host = HostTcpTransport::new().establish();
    let (id, _request) = host.begin_get_widget(WidgetId(1));
    let wrong = Message { seq_num: id, kind: MessageKind::DeviceResponse(DeviceResponse::Pong) };
    match host.handle_message(over_the_wire(&wrong)) {
        HostDispatch::ProtocolMismatch(did) => assert_eq!(did, id),
        other => panic!("expected a protocol mismatch, got {:?}", other),
    }
}

#[test]
fn sequence_numbers_keep_parity_and_stay_distinct() {
    let mut host = HostTcpTransport::new().establish();
    let mut device = DeviceTcpTransport::default().establish();
    let mut seen = Vec::new();
    for _ in 0..5 {
        let (host_id, _) = host.begin_ping();
        let (dev_id, _) = device.begin_ping();
        assert_eq!(host_id % 2, 0, "host ids are even");
        assert_eq!(dev_id % 2, 1, "device ids are odd");
        assert!(!seen.contains(&host_id));
        assert!(!seen.contains(&dev_id));
        seen.push(host_id);
        seen.push(dev_id);
    }
}

#[test]
fn misuse_frames_are_ignored() {
    // A host request arriving back at the host is protocol misuse.
    let mut host = HostTcpTransport::new().establish();
    let stray = Message { seq_num: 6, kind: MessageKind::HostRequest(HostRequest::Ping) };
    match host.handle_message(over_the_wire(&stray)) {
        HostDispatch::Misuse => {},
        other => panic!("expected misuse, got {:?}", other),
    }
}

#[test]
fn write_failure_aborts_the_request() {
    // The frame for a request cannot be written: the request is aborted
    // with the hard wire error, its entry is gone, and a late response
    // for it is dropped; an unrelated pending request is untouched.
    let mut host = HostTcpTransport::new().establish();
    let mut device = DeviceTcpTransport::default().establish();

    let (doomed, _frame) = host.begin_get_widget(WidgetId(1));
    let (kept, _frame) = host.begin_ping();
    assert_eq!(host.on_write_failure(doomed), TransError::ProtocolIssue);

    let late = device.frame_response(
        Sequenced::new(doomed, DeviceResponse::WidgetGet(Err(TransError::WidgetNotFound))),
    );
    match host.handle_message(over_the_wire(&late)) {
        HostDispatch::DroppedUnknown(id) => assert_eq!(id, doomed),
        other => panic!("expected the aborted request's response dropped, got {:?}", other),
    }

    let pong = Message { seq_num: kept, kind: MessageKind::DeviceResponse(DeviceResponse::Pong) };
    match host.handle_message(over_the_wire(&pong)) {
        HostDispatch::Delivered(id, HostDeliver::Pong) => assert_eq!(id, kept),
        other => panic!("expected the unrelated pong delivered, got {:?}", other),
    }

    // The device side aborts the same way.
    let (dev_id, _frame) = device.begin_ping();
    assert_eq!(device.on_write_failure(dev_id), TransError::ProtocolIssue);
    let late = host.frame_response(Sequenced::new(dev_id, memori::tcp_host::answer_ping()));
    match device.handle_message(over_the_wire(&late)) {
        DeviceDispatch::DroppedUnknown(id) => assert_eq!(id, dev_id),
        other => panic!("expected the aborted ping's response dropped, got {:?}", other),
    }
}
