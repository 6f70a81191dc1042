//! The BLE endpoints: connection gating, slot-based correlation on the
//! device, table-based correlation on the host, the battery read, and
//! the scan filter's name test.

use memori::ble_device::{
    advertise_step, ble_command_to_request, response_to_ble, AdvertiseEvent, AdvertiseState,
    BleDeliver, DeviceBLETransport, DeviceBleDispatch,
};
use memori::ble_host::{
    answer_ping, device_name_matches, parse_battery_level, BleHostDeliver, HostBLETransport,
    HostBleDispatch,
};
use memori::config::DeviceConfig;
use memori::handler::DeviceCore;
use memori::layout::MemoriLayout;
use memori::state::MemoriState;
use memori::stream::DeviceResponse;
use memori::ble_types::{
    decode_ble_frame, encode_ble_frame, BLEPacket, DeviceBLECommand, DeviceBLEResponse,
    HostBLECommand, HostBLEResponse,
};
use memori::errors::TransError;
use memori::widgets::{MemoriWidget, Name, UpdateFrequency, WidgetId, WidgetKind};

fn over_the_air(p: &BLEPacket) -> BLEPacket {
    let frame = encode_ble_frame(p).expect("packet should fit one frame");
    decode_ble_frame(&frame).expect("frame should decode")
}

fn small_widget(id: u32) -> MemoriWidget {
    MemoriWidget::new(
        WidgetId(id),
        WidgetKind::Name(Name::new(String::from("w"))),
        UpdateFrequency::Seconds(1),
        UpdateFrequency::Never,
    )
}

#[test]
fn command_refused_while_disconnected() {
    let mut device = DeviceBLETransport::new();
    let r = device.begin_command(DeviceBLECommand::Ping);
    assert_eq!(r, Err(TransError::NotConnected));
}

#[test]
fn device_ping_round_trip_over_ble() {
    let mut device = DeviceBLETransport::new();
    device.set_connected(true);
    assert!(device.is_connected());
    let mut host = HostBLETransport::connect();

    let (id, outgoing) = device.begin_command(DeviceBLECommand::Ping).expect("connected");
    let packet = device.command_packet(&outgoing);
    let arrived = over_the_air(&packet);
    let served = match host.handle_notification(arrived) {
        HostBleDispatch::DeviceCommand(cmd_id, cmd) => {
            assert_eq!(cmd_id, id);
            assert_eq!(cmd, DeviceBLECommand::Ping);
            cmd_id
        },
        other => panic!("expected the device command, got {:?}", other),
    };
    let reply = host.response_packet(served, answer_ping());
    match device.handle_packet(over_the_air(&reply)) {
        DeviceBleDispatch::Delivered(did, BleDeliver::Ping(result)) => {
            assert_eq!(did, id);
            assert_eq!(result, Ok(()));
        },
        other => panic!("expected the pong, got {:?}", other),
    }
}

#[test]
fn host_get_widget_round_trip_over_ble() {
    let mut host = HostBLETransport::connect();
    let mut device = DeviceBLETransport::new();
    device.set_connected(true);

    let (id, packet) = host.send_command(HostBLECommand::GetWidget { widget_id: WidgetId(4) });
    let served = match device.handle_packet(over_the_air(&packet)) {
        DeviceBleDispatch::HostCommand(cmd_id, HostBLECommand::GetWidget { widget_id }) => {
            assert_eq!(cmd_id, id);
            assert_eq!(widget_id, WidgetId(4));
            cmd_id
        },
        other => panic!("expected the host command, got {:?}", other),
    };
    let reply = device.response_packet(
        served,
        DeviceBLEResponse::WidgetGet { result: Ok(small_widget(4)) },
    );
    match host.handle_notification(over_the_air(&reply)) {
        HostBleDispatch::Delivered(did, BleHostDeliver::Widget(result)) => {
            assert_eq!(did, id);
            assert_eq!(result.expect("widget should come back").id, WidgetId(4));
        },
        other => panic!("expected the widget, got {:?}", other),
    }
}

#[test]
fn second_ble_response_is_dropped() {
    let mut host = HostBLETransport::connect();
    let (id, _packet) = host.send_command(HostBLECommand::SetConfig {
        config: memori::config::DeviceConfig::new(true),
    });
    let reply = host.response_packet(id, HostBLEResponse::Ping { result: Ok(()) });
    // Build the device's answer by hand: ConfigSet under the same id.
    let device = DeviceBLETransport::new();
    let ok = device.response_packet(id, DeviceBLEResponse::ConfigSet { result: Ok(()) });
    match host.handle_notification(over_the_air(&ok)) {
        HostBleDispatch::Delivered(did, BleHostDeliver::Config(result)) => {
            assert_eq!(did, id);
            assert_eq!(result, Ok(()));
        },
        other => panic!("expected the ack, got {:?}", other),
    }
    match host.handle_notification(over_the_air(&ok)) {
        HostBleDispatch::DroppedUnknown(did) => assert_eq!(did, id),
        other => panic!("expected the duplicate dropped, got {:?}", other),
    }
    // A host packet coming back on TX is misuse.
    match host.handle_notification(over_the_air(&reply)) {
        HostBleDispatch::Misuse => {},
        other => panic!("expected misuse, got {:?}", other),
    }
}

#[test]
fn ble_timeout_frees_the_slot() {
    let mut device = DeviceBLETransport::new();
    device.set_connected(true);
    let (id, _out) = device.begin_command(DeviceBLECommand::RefreshData {
        widget_id: WidgetId(2),
    }).expect("connected");
    assert_eq!(device.on_timeout(id), TransError::Timeout);
    let host = HostBLETransport::connect();
    let late = host.response_packet(id, HostBLEResponse::RefreshData {
        result: Ok(small_widget(2)),
    });
    match device.handle_packet(over_the_air(&late)) {
        DeviceBleDispatch::DroppedUnknown(did) => assert_eq!(did, id),
        other => panic!("expected the late response dropped, got {:?}", other),
    }
}

#[test]
fn battery_read_parses_one_byte() {
    assert_eq!(parse_battery_level(&[87]), Ok(87));
    assert_eq!(parse_battery_level(&[]), Err(TransError::InvalidMessage));
    assert_eq!(parse_battery_level(&[1, 2]), Err(TransError::InvalidMessage));
}

#[test]
fn scan_filter_matches_names_containing_memori() {
    assert!(device_name_matches("memori"));
    assert!(device_name_matches("my memori device"));
    assert!(device_name_matches("xxmemorixx"));
    assert!(!device_name_matches("memo"));
    assert!(!device_name_matches(""));
    assert!(!device_name_matches("Memori"));
}

#[test]
fn advertise_cycle_walks_its_three_states() {
    let s = advertise_step(AdvertiseState::Disconnected, AdvertiseEvent::StartAdvertising);
    assert_eq!(s, AdvertiseState::Advertising);
    let s = advertise_step(s, AdvertiseEvent::CentralConnected);
    assert_eq!(s, AdvertiseState::Connected);
    let s = advertise_step(s, AdvertiseEvent::GattDisconnected);
    assert_eq!(s, AdvertiseState::Disconnected);
    // An event that does not apply leaves the state alone.
    assert_eq!(
        advertise_step(AdvertiseState::Advertising, AdvertiseEvent::GattDisconnected),
        AdvertiseState::Advertising
    );
}

#[test]
fn ble_write_failure_aborts_the_command() {
    // The packet for a command cannot be notified: the command is aborted
    // with the hard wire error and a late response finds an empty slot.
    let mut device = DeviceBLETransport::new();
    device.set_connected(true);
    let (id, _out) = device.begin_command(DeviceBLECommand::Ping).expect("connected");
    assert_eq!(device.on_write_failure(id), TransError::ProtocolIssue);
    let host = HostBLETransport::connect();
    let late = host.response_packet(id, answer_ping());
    match device.handle_packet(over_the_air(&late)) {
        DeviceBleDispatch::DroppedUnknown(did) => assert_eq!(did, id),
        other => panic!("expected the aborted command's response dropped, got {:?}", other),
    }

    // The host side aborts the same way.
    let mut host = HostBLETransport::connect();
    let (cmd_id, _packet) = host.send_command(HostBLECommand::GetWidget {
        widget_id: WidgetId(1),
    });
    assert_eq!(host.on_write_failure(cmd_id), TransError::ProtocolIssue);
    let answering_device = DeviceBLETransport::new();
    let late = answering_device.response_packet(
        cmd_id,
        DeviceBLEResponse::WidgetGet { result: Ok(small_widget(1)) },
    );
    match host.handle_notification(over_the_air(&late)) {
        HostBleDispatch::DroppedUnknown(did) => assert_eq!(did, cmd_id),
        other => panic!("expected the aborted command's response dropped, got {:?}", other),
    }
}

#[test]
fn ble_commands_are_served_through_the_shared_handler() {
    // A SetConfig command travels over BLE, is bridged into the shared
    // command handler's vocabulary, served, bridged back, and the host
    // observes the acknowledgement.
    let mut host = HostBLETransport::connect();
    let mut device = DeviceBLETransport::new();
    device.set_connected(true);
    let initial = MemoriState::new(
        0,
        vec![small_widget(1)],
        vec![MemoriLayout::Full(WidgetId(1))],
        5,
    );
    let mut core = DeviceCore::new(initial, 100);

    let (id, packet) = host.send_command(HostBLECommand::SetConfig {
        config: DeviceConfig::new(true),
    });
    let (served_id, cmd) = match device.handle_packet(over_the_air(&packet)) {
        DeviceBleDispatch::HostCommand(cmd_id, cmd) => (cmd_id, cmd),
        other => panic!("expected the host command, got {:?}", other),
    };
    let (resp, tasks) = core.handle_host_request(ble_command_to_request(cmd));
    assert_eq!(tasks.len(), 0);
    assert!(core.config.dark_mode);
    let ble_resp = response_to_ble(resp).expect("a config ack has a BLE form");
    let reply = device.response_packet(served_id, ble_resp);
    match host.handle_notification(over_the_air(&reply)) {
        HostBleDispatch::Delivered(did, BleHostDeliver::Config(result)) => {
            assert_eq!(did, id);
            assert_eq!(result, Ok(()));
        },
        other => panic!("expected the config ack, got {:?}", other),
    }
}

#[test]
fn stream_only_responses_have_no_ble_form() {
    assert_eq!(response_to_ble(DeviceResponse::BatteryLevel(9)), None);
    assert_eq!(response_to_ble(DeviceResponse::Pong), None);
    assert_eq!(response_to_ble(DeviceResponse::Success), None);
}
