//! Wire-format round trips on concrete values, and the framing edge
//! cases: empty and oversized frames.

use memori::ble_types::{
    decode_ble_frame, encode_ble_frame, BLEPacket, BLEPacketPayload, DeviceBLECommand,
    DeviceBLEPacket,
};
use memori::codec::{dec_state, dec_widget, enc_state, enc_widget};
use memori::errors::TransError;
use memori::layout::MemoriLayout;
use memori::state::MemoriState;
use memori::stream::{
    classify_header, decode_frame_payload, dec_u32_be, encode_frame, enc_u32_be, DeviceRequest,
    DeviceResponse, HeaderAction, HostRequest, HostResponse, Message, MessageKind,
};
use memori::widgets::{
    Bus, Clock, Github, MemoriWidget, Name, UpdateFrequency, Weather, WeatherIcon, WidgetId,
    WidgetKind,
};
use memori::wire::{dec_i32, dec_string, dec_varint, enc_i32, enc_string, enc_varint};
use memori::{BLE_CHAR_SIZE, MAX_STREAM_FRAME};

fn sample_widget(id: u32) -> MemoriWidget {
    MemoriWidget::new(
        WidgetId(id),
        WidgetKind::Name(Name::new(String::from("Ada"))),
        UpdateFrequency::Seconds(1),
        UpdateFrequency::Never,
    )
}

fn sample_state() -> MemoriState {
    let widgets = vec![
        sample_widget(7),
        MemoriWidget::new(
            WidgetId(8),
            WidgetKind::Clock(Clock::new(11, 59, 58)),
            UpdateFrequency::Minutes(2),
            UpdateFrequency::Seconds(1),
        ),
        MemoriWidget::new(
            WidgetId(9),
            WidgetKind::Github(Github::new(String::from("octo"), Some(String::from("repo")))),
            UpdateFrequency::Never,
            UpdateFrequency::Never,
        ),
        MemoriWidget::new(
            WidgetId(10),
            WidgetKind::Weather(Weather::new(-125, WeatherIcon::Snowy)),
            UpdateFrequency::Hours(1),
            UpdateFrequency::Never,
        ),
        MemoriWidget::new(
            WidgetId(11),
            WidgetKind::Bus(Bus::new(String::from("3 min"), String::from("61C"))),
            UpdateFrequency::Never,
            UpdateFrequency::Never,
        ),
    ];
    let frames = vec![
        MemoriLayout::Full(WidgetId(7)),
        MemoriLayout::VSplit { left: WidgetId(8), right: WidgetId(9) },
        MemoriLayout::Fourths {
            top_left: WidgetId(7),
            top_right: WidgetId(8),
            bottom_left: WidgetId(10),
            bottom_right: WidgetId(11),
        },
    ];
    MemoriState::new(1, widgets, frames, 5)
}

#[test]
fn varint_round_trip_concrete() {
    for value in [0u64, 1, 127, 128, 300, 65535, u32::MAX as u64, u64::MAX] {
        let mut out = Vec::new();
        enc_varint(&mut out, value);
        let decoded = dec_varint(&out, 0).expect("varint should decode");
        assert_eq!(decoded.0, value);
        assert_eq!(decoded.1, out.len());
    }
}

#[test]
fn varint_single_byte_for_small_values() {
    let mut out = Vec::new();
    enc_varint(&mut out, 5);
    assert_eq!(out, vec![5]);
    let mut out = Vec::new();
    enc_varint(&mut out, 300);
    assert_eq!(out, vec![0xAC, 0x02]);
}

#[test]
fn string_round_trip_concrete() {
    let mut out = Vec::new();
    enc_string(&mut out, "memori \u{00e9}\u{4e16}");
    let (text, used) = dec_string(&out, 0).expect("string should decode");
    assert_eq!(text, "memori \u{00e9}\u{4e16}");
    assert_eq!(used, out.len());
}

#[test]
fn signed_round_trip_concrete() {
    for value in [0i32, 1, -1, 42, -125, i32::MAX, i32::MIN] {
        let mut out = Vec::new();
        enc_i32(&mut out, value);
        let (decoded, used) = dec_i32(&out, 0).expect("signed int should decode");
        assert_eq!(decoded, value);
        assert_eq!(used, out.len());
    }
}

#[test]
fn widget_round_trip_concrete() {
    let w = sample_widget(7);
    let mut out = Vec::new();
    enc_widget(&mut out, &w);
    let (decoded, used) = dec_widget(&out, 0).expect("widget should decode");
    assert_eq!(decoded, w);
    assert_eq!(used, out.len());
}

#[test]
fn state_round_trip_concrete() {
    let st = sample_state();
    let mut out = Vec::new();
    enc_state(&mut out, &st);
    let (decoded, used) = dec_state(&out, 0).expect("state should decode");
    assert_eq!(decoded, st);
    assert_eq!(used, out.len());
}

#[test]
fn header_round_trip_concrete() {
    for len in [0u32, 1, 255, 2048, 3000, u32::MAX] {
        let mut out = Vec::new();
        enc_u32_be(&mut out, len);
        assert_eq!(out.len(), 4);
        assert_eq!(dec_u32_be(&out), len);
    }
    let mut out = Vec::new();
    enc_u32_be(&mut out, 0x0102_0304);
    assert_eq!(out, vec![1, 2, 3, 4]);
}

#[test]
fn stream_frame_round_trip_concrete() {
    let msg = Message {
        seq_num: 2,
        kind: MessageKind::HostRequest(HostRequest::SetState(sample_state())),
    };
    let frame = encode_frame(&msg).expect("frame should fit");
    let announced = dec_u32_be(&frame[0..4]);
    assert_eq!(announced as usize, frame.len() - 4);
    let decoded = decode_frame_payload(&frame[4..]).expect("payload should decode");
    assert_eq!(decoded, msg);
}

#[test]
fn stream_frame_round_trip_every_family() {
    let messages = vec![
        Message { seq_num: 1, kind: MessageKind::DeviceRequest(DeviceRequest::Ping) },
        Message {
            seq_num: 3,
            kind: MessageKind::DeviceRequest(DeviceRequest::RefreshData(WidgetId(9))),
        },
        Message {
            seq_num: 0,
            kind: MessageKind::HostRequest(HostRequest::GetWidget(WidgetId(7))),
        },
        Message { seq_num: 2, kind: MessageKind::HostRequest(HostRequest::GetBatteryLevel) },
        Message {
            seq_num: 2,
            kind: MessageKind::DeviceResponse(DeviceResponse::BatteryLevel(10)),
        },
        Message {
            seq_num: 0,
            kind: MessageKind::DeviceResponse(DeviceResponse::WidgetGet(Ok(sample_widget(7)))),
        },
        Message {
            seq_num: 4,
            kind: MessageKind::DeviceResponse(
                DeviceResponse::WidgetGet(Err(TransError::WidgetNotFound)),
            ),
        },
        Message {
            seq_num: 1,
            kind: MessageKind::HostResponse(HostResponse::Ping(Ok(()))),
        },
        Message {
            seq_num: 3,
            kind: MessageKind::HostResponse(HostResponse::RefreshData(Ok(sample_widget(9)))),
        },
    ];
    for msg in messages {
        let frame = encode_frame(&msg).expect("frame should fit");
        let decoded = decode_frame_payload(&frame[4..]).expect("payload should decode");
        assert_eq!(decoded, msg);
    }
}

#[test]
fn zero_length_frame_is_invalid_message_but_not_fatal() {
    // A frame with length zero: the payload is empty and decodes to the
    // invalid-message error; the reader then skips the frame and keeps
    // the connection open.
    let empty: [u8; 0] = [];
    assert_eq!(decode_frame_payload(&empty), Err(TransError::InvalidMessage));
    assert_eq!(classify_header(0), HeaderAction::Read(0));
}

#[test]
fn oversized_frame_is_skipped() {
    assert_eq!(classify_header(3000), HeaderAction::Skip);
    assert_eq!(classify_header(MAX_STREAM_FRAME as u32), HeaderAction::Read(MAX_STREAM_FRAME as u32));
    assert_eq!(classify_header(MAX_STREAM_FRAME as u32 + 1), HeaderAction::Skip);
    assert_eq!(classify_header(u32::MAX), HeaderAction::Skip);
}

#[test]
fn garbage_payload_is_invalid_message() {
    assert_eq!(decode_frame_payload(&[0xFF, 0xFF, 0xFF]), Err(TransError::InvalidMessage));
    // An unknown family tag is rejected.
    assert_eq!(decode_frame_payload(&[0x01, 0x09]), Err(TransError::InvalidMessage));
}

#[test]
fn ble_frame_round_trip_trailing_zeros_ignored() {
    let packet = BLEPacket {
        payload: BLEPacketPayload::DevicePacket(DeviceBLEPacket::Command(
            DeviceBLECommand::RefreshData { widget_id: WidgetId(12) },
        )),
        id: 77,
    };
    let frame = encode_ble_frame(&packet).expect("packet should fit one frame");
    assert_eq!(frame.len(), BLE_CHAR_SIZE);
    let decoded = decode_ble_frame(&frame).expect("frame should decode");
    assert_eq!(decoded, packet);
}

#[test]
fn ble_frame_rejects_oversized_packet() {
    // A state large enough that its encoding cannot fit one 128-byte
    // frame: the link never fragments, so it is refused.
    let long_name = "n".repeat(BLE_CHAR_SIZE);
    let widgets = vec![MemoriWidget::new(
        WidgetId(1),
        WidgetKind::Name(Name::new(long_name)),
        UpdateFrequency::Never,
        UpdateFrequency::Never,
    )];
    let state = MemoriState::new(0, widgets, vec![MemoriLayout::Full(WidgetId(1))], 5);
    let packet = BLEPacket {
        payload: BLEPacketPayload::HostPacket(memori::ble_types::HostBLEPacket::Command(
            memori::ble_types::HostBLECommand::SetState { state },
        )),
        id: 1,
    };
    assert_eq!(encode_ble_frame(&packet), Err(TransError::InternalError));
}

#[test]
fn ble_garbage_frame_is_invalid_message() {
    let frame = vec![0xFFu8; BLE_CHAR_SIZE];
    assert_eq!(decode_ble_frame(&frame), Err(TransError::InvalidMessage));
}
