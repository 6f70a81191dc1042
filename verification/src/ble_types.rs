//! The BLE link's packet model and fixed-width framing.
//!
//! Every characteristic write carries exactly [`crate::BLE_CHAR_SIZE`]
//! bytes: one encoded [`BLEPacket`] followed by zero padding. Decoding
//! reads the packet off the front of the frame and ignores whatever
//! trails it.

use crate::codec::{
    dec_config, dec_result_unit, dec_result_widget, dec_state, dec_widget_id, enc_config,
    enc_result_unit, enc_result_widget, enc_state, enc_widget_id, lemma_config_round_trip,
    lemma_result_unit_round_trip, lemma_result_widget_round_trip, lemma_state_round_trip,
    lemma_widget_id_round_trip, spec_dec_config, spec_dec_result_unit, spec_dec_result_widget,
    spec_dec_state, spec_dec_widget_id, spec_enc_config, spec_enc_result_unit,
    spec_enc_result_widget, spec_enc_state, spec_enc_widget_id, view_of_result_widget,
};
use crate::config::DeviceConfig;
use crate::errors::{TransError, TransResult};
use crate::state::{MemoriState, MemoriStateV};
use crate::widgets::{MemoriWidget, MemoriWidgetV, WidgetId};
use crate::wire::{
    dec_u32, dec_u8, decodes_to, enc_u32, enc_u8, lemma_u32_round_trip, lemma_u8_round_trip,
    spec_dec_u32, spec_dec_u8, spec_enc_u32, spec_enc_u8,
};
use crate::BLE_CHAR_SIZE;
use vstd::prelude::*;

verus! {

/// Nordic-UART-style service carrying the packet stream.
pub const NUS_SERVICE_UUID: u128 = 0x6e400001b5a3f393e0a9e50e24dcca9e;

/// Characteristic the host writes packets to (the device's receive side).
pub const NUS_RX_CHAR_UUID: u128 = 0x6e400002b5a3f393e0a9e50e24dcca9e;

/// Characteristic the device notifies packets on (the host subscribes).
pub const NUS_TX_CHAR_UUID: u128 = 0x6e400003b5a3f393e0a9e50e24dcca9e;

/// Standard battery service; its level is read directly, outside the
/// correlation path.
pub const BATTERY_SERVICE_UUID: u16 = 0x180f;

/// Battery level characteristic: one byte, zero to one hundred.
pub const BATTERY_LEVEL_CHAR_UUID: u16 = 0x2a19;

/// Auxiliary battery status characteristic.
pub const BATTERY_NOTIFY_CHAR_UUID: u128 = 0x408813df5dd41f87ec11cdb001100000;

/// Correlation identifier carried by every BLE packet.
pub type MessageID = u32;

/// Commands the device sends to the host.
#[derive(Clone, Copy, Debug, PartialEq, Eq, Structural)]
pub enum DeviceBLECommand {
    RefreshData { widget_id: WidgetId },
    Ping,
}

impl View for DeviceBLECommand {
    type V = DeviceBLECommand;

    open spec fn view(&self) -> DeviceBLECommand {
        *self
    }
}

/// The host's answers to device commands.
#[derive(Debug, PartialEq, Eq)]
pub enum HostBLEResponse {
    RefreshData { result: TransResult<MemoriWidget> },
    Ping { result: TransResult<()> },
}

/// Mathematical image of a [`HostBLEResponse`].
pub enum HostBLEResponseV {
    RefreshData { result: Result<MemoriWidgetV, TransError> },
    Ping { result: TransResult<()> },
}

impl View for HostBLEResponse {
    type V = HostBLEResponseV;

    open spec fn view(&self) -> HostBLEResponseV {
        match self {
            HostBLEResponse::RefreshData { result } => HostBLEResponseV::RefreshData {
                result: view_of_result_widget(*result),
            },
            HostBLEResponse::Ping { result } => HostBLEResponseV::Ping { result: *result },
        }
    }
}

/// Commands the host sends to the device. Battery level is read directly
/// from the battery characteristic and needs no command.
#[derive(Debug, PartialEq, Eq)]
pub enum HostBLECommand {
    SetState { state: MemoriState },
    GetWidget { widget_id: WidgetId },
    SetConfig { config: DeviceConfig },
}

/// Mathematical image of a [`HostBLECommand`].
pub enum HostBLECommandV {
    SetState { state: MemoriStateV },
    GetWidget { widget_id: WidgetId },
    SetConfig { config: DeviceConfig },
}

impl View for HostBLECommand {
    type V = HostBLECommandV;

    open spec fn view(&self) -> HostBLECommandV {
        match self {
            HostBLECommand::SetState { state } => HostBLECommandV::SetState { state: state@ },
            HostBLECommand::GetWidget { widget_id } => HostBLECommandV::GetWidget {
                widget_id: *widget_id,
            },
            HostBLECommand::SetConfig { config } => HostBLECommandV::SetConfig { config: *config },
        }
    }
}

/// The device's answers to host commands.
#[derive(Debug, PartialEq, Eq)]
pub enum DeviceBLEResponse {
    WidgetGet { result: TransResult<MemoriWidget> },
    SetState { result: TransResult<()> },
    ConfigSet { result: TransResult<()> },
}

/// Mathematical image of a [`DeviceBLEResponse`].
pub enum DeviceBLEResponseV {
    WidgetGet { result: Result<MemoriWidgetV, TransError> },
    SetState { result: TransResult<()> },
    ConfigSet { result: TransResult<()> },
}

impl View for DeviceBLEResponse {
    type V = DeviceBLEResponseV;

    open spec fn view(&self) -> DeviceBLEResponseV {
        match self {
            DeviceBLEResponse::WidgetGet { result } => DeviceBLEResponseV::WidgetGet {
                result: view_of_result_widget(*result),
            },
            DeviceBLEResponse::SetState { result } => DeviceBLEResponseV::SetState {
                result: *result,
            },
            DeviceBLEResponse::ConfigSet { result } => DeviceBLEResponseV::ConfigSet {
                result: *result,
            },
        }
    }
}

/// A device-originated packet: command or response.
#[derive(Debug, PartialEq, Eq)]
pub enum DeviceBLEPacket {
    Command(DeviceBLECommand),
    Response(DeviceBLEResponse),
}

/// Mathematical image of a [`DeviceBLEPacket`].
pub enum DeviceBLEPacketV {
    Command(DeviceBLECommand),
    Response(DeviceBLEResponseV),
}

impl View for DeviceBLEPacket {
    type V = DeviceBLEPacketV;

    open spec fn view(&self) -> DeviceBLEPacketV {
        match self {
            DeviceBLEPacket::Command(c) => DeviceBLEPacketV::Command(*c),
            DeviceBLEPacket::Response(r) => DeviceBLEPacketV::Response(r@),
        }
    }
}

/// A host-originated packet: command or response.
#[derive(Debug, PartialEq, Eq)]
pub enum HostBLEPacket {
    Command(HostBLECommand),
    Response(HostBLEResponse),
}

/// Mathematical image of a [`HostBLEPacket`].
pub enum HostBLEPacketV {
    Command(HostBLECommandV),
    Response(HostBLEResponseV),
}

impl View for HostBLEPacket {
    type V = HostBLEPacketV;

    open spec fn view(&self) -> HostBLEPacketV {
        match self {
            HostBLEPacket::Command(c) => HostBLEPacketV::Command(c@),
            HostBLEPacket::Response(r) => HostBLEPacketV::Response(r@),
        }
    }
}

/// Which side a packet originated from.
#[derive(Debug, PartialEq, Eq)]
pub enum BLEPacketPayload {
    DevicePacket(DeviceBLEPacket),
    HostPacket(HostBLEPacket),
}

/// Mathematical image of a [`BLEPacketPayload`].
pub enum BLEPacketPayloadV {
    DevicePacket(DeviceBLEPacketV),
    HostPacket(HostBLEPacketV),
}

impl View for BLEPacketPayload {
    type V = BLEPacketPayloadV;

    open spec fn view(&self) -> BLEPacketPayloadV {
        match self {
            BLEPacketPayload::DevicePacket(p) => BLEPacketPayloadV::DevicePacket(p@),
            BLEPacketPayload::HostPacket(p) => BLEPacketPayloadV::HostPacket(p@),
        }
    }
}

/// One packet on the BLE link, tagged with its correlation identifier.
#[derive(Debug, PartialEq, Eq)]
pub struct BLEPacket {
    pub payload: BLEPacketPayload,
    pub id: MessageID,
}

/// Mathematical image of a [`BLEPacket`].
pub struct BLEPacketV {
    pub payload: BLEPacketPayloadV,
    pub id: MessageID,
}

impl View for BLEPacket {
    type V = BLEPacketV;

    open spec fn view(&self) -> BLEPacketV {
        BLEPacketV { payload: self.payload@, id: self.id }
    }
}

// ---------------------------------------------------------------------------
// Codecs
// ---------------------------------------------------------------------------

pub open spec fn spec_enc_device_ble_command(v: DeviceBLECommand) -> Seq<u8> {
    match v {
        DeviceBLECommand::RefreshData { widget_id } => spec_enc_u8(0) + spec_enc_widget_id(
            widget_id,
        ),
        DeviceBLECommand::Ping => spec_enc_u8(1),
    }
}

pub open spec fn spec_dec_device_ble_command(s: Seq<u8>) -> Option<(DeviceBLECommand, Seq<u8>)> {
    match spec_dec_u8(s) {
        Some(tp) => {
            if tp.0 == 0 {
                match spec_dec_widget_id(tp.1) {
                    Some(ip) => Some((DeviceBLECommand::RefreshData { widget_id: ip.0 }, ip.1)),
                    None => None,
                }
            } else if tp.0 == 1 {
                Some((DeviceBLECommand::Ping, tp.1))
            } else {
                None
            }
        },
        None => None,
    }
}

pub proof fn lemma_device_ble_command_round_trip(v: DeviceBLECommand, rest: Seq<u8>)
    ensures
        spec_dec_device_ble_command(spec_enc_device_ble_command(v) + rest) == Some((v, rest)),
{
    match v {
        DeviceBLECommand::RefreshData { widget_id } => {
            assert(spec_enc_device_ble_command(v) + rest =~= spec_enc_u8(0) + (spec_enc_widget_id(
                widget_id,
            ) + rest));
            lemma_u8_round_trip(0, spec_enc_widget_id(widget_id) + rest);
            lemma_widget_id_round_trip(widget_id, rest);
        },
        DeviceBLECommand::Ping => lemma_u8_round_trip(1, rest),
    }
}

pub fn enc_device_ble_command(out: &mut Vec<u8>, v: &DeviceBLECommand)
    ensures
        final(out)@ == old(out)@ + spec_enc_device_ble_command(*v),
{
    match v {
        DeviceBLECommand::RefreshData { widget_id } => {
            enc_u8(out, 0);
            enc_widget_id(out, *widget_id);
            assert(out@ =~= old(out)@ + spec_enc_device_ble_command(*v));
        },
        DeviceBLECommand::Ping => enc_u8(out, 1),
    }
}

pub fn dec_device_ble_command(s: &[u8], pos: usize) -> (r: Option<(DeviceBLECommand, usize)>)
    requires
        pos <= s.len(),
    ensures
        decodes_to::<DeviceBLECommand>(
            s@,
            pos as int,
            spec_dec_device_ble_command(s@.skip(pos as int)),
            r,
        ),
{
    match dec_u8(s, pos) {
        Some((tag, p)) => {
            if tag == 0 {
                match dec_widget_id(s, p) {
                    Some((widget_id, q)) => Some((DeviceBLECommand::RefreshData { widget_id }, q)),
                    None => None,
                }
            } else if tag == 1 {
                Some((DeviceBLECommand::Ping, p))
            } else {
                None
            }
        },
        None => None,
    }
}

pub open spec fn spec_enc_host_ble_response(v: HostBLEResponse) -> Seq<u8> {
    match v {
        HostBLEResponse::RefreshData { result } => spec_enc_u8(0) + spec_enc_result_widget(result),
        HostBLEResponse::Ping { result } => spec_enc_u8(1) + spec_enc_result_unit(result),
    }
}

pub open spec fn spec_dec_host_ble_response(s: Seq<u8>) -> Option<(HostBLEResponseV, Seq<u8>)> {
    match spec_dec_u8(s) {
        Some(tp) => {
            if tp.0 == 0 {
                match spec_dec_result_widget(tp.1) {
                    Some(rp) => Some((HostBLEResponseV::RefreshData { result: rp.0 }, rp.1)),
                    None => None,
                }
            } else if tp.0 == 1 {
                match spec_dec_result_unit(tp.1) {
                    Some(rp) => Some((HostBLEResponseV::Ping { result: rp.0 }, rp.1)),
                    None => None,
                }
            } else {
                None
            }
        },
        None => None,
    }
}

pub proof fn lemma_host_ble_response_round_trip(v: HostBLEResponse, rest: Seq<u8>)
    ensures
        spec_dec_host_ble_response(spec_enc_host_ble_response(v) + rest) == Some((v@, rest)),
{
    match v {
        HostBLEResponse::RefreshData { result } => {
            assert(spec_enc_host_ble_response(v) + rest =~= spec_enc_u8(0) + (
            spec_enc_result_widget(result) + rest));
            lemma_u8_round_trip(0, spec_enc_result_widget(result) + rest);
            lemma_result_widget_round_trip(result, rest);
        },
        HostBLEResponse::Ping { result } => {
            assert(spec_enc_host_ble_response(v) + rest =~= spec_enc_u8(1) + (spec_enc_result_unit(
                result,
            ) + rest));
            lemma_u8_round_trip(1, spec_enc_result_unit(result) + rest);
            lemma_result_unit_round_trip(result, rest);
        },
    }
}

pub fn enc_host_ble_response(out: &mut Vec<u8>, v: &HostBLEResponse)
    ensures
        final(out)@ == old(out)@ + spec_enc_host_ble_response(*v),
{
    match v {
        HostBLEResponse::RefreshData { result } => {
            enc_u8(out, 0);
            enc_result_widget(out, result);
        },
        HostBLEResponse::Ping { result } => {
            enc_u8(out, 1);
            enc_result_unit(out, result);
        },
    }
    assert(out@ =~= old(out)@ + spec_enc_host_ble_response(*v));
}

pub fn dec_host_ble_response(s: &[u8], pos: usize) -> (r: Option<(HostBLEResponse, usize)>)
    requires
        pos <= s.len(),
    ensures
        decodes_to::<HostBLEResponse>(
            s@,
            pos as int,
            spec_dec_host_ble_response(s@.skip(pos as int)),
            r,
        ),
{
    match dec_u8(s, pos) {
        Some((tag, p)) => {
            if tag == 0 {
                match dec_result_widget(s, p) {
                    Some((result, q)) => Some((HostBLEResponse::RefreshData { result }, q)),
                    None => None,
                }
            } else if tag == 1 {
                match dec_result_unit(s, p) {
                    Some((result, q)) => Some((HostBLEResponse::Ping { result }, q)),
                    None => None,
                }
            } else {
                None
            }
        },
        None => None,
    }
}

pub open spec fn spec_enc_host_ble_command(v: HostBLECommand) -> Seq<u8> {
    match v {
        HostBLECommand::SetState { state } => spec_enc_u8(0) + spec_enc_state(state),
        HostBLECommand::GetWidget { widget_id } => spec_enc_u8(1) + spec_enc_widget_id(widget_id),
        HostBLECommand::SetConfig { config } => spec_enc_u8(2) + spec_enc_config(config),
    }
}

pub open spec fn spec_dec_host_ble_command(s: Seq<u8>) -> Option<(HostBLECommandV, Seq<u8>)> {
    match spec_dec_u8(s) {
        Some(tp) => {
            if tp.0 == 0 {
                match spec_dec_state(tp.1) {
                    Some(sp) => Some((HostBLECommandV::SetState { state: sp.0 }, sp.1)),
                    None => None,
                }
            } else if tp.0 == 1 {
                match spec_dec_widget_id(tp.1) {
                    Some(ip) => Some((HostBLECommandV::GetWidget { widget_id: ip.0 }, ip.1)),
                    None => None,
                }
            } else if tp.0 == 2 {
                match spec_dec_config(tp.1) {
                    Some(cp) => Some((HostBLECommandV::SetConfig { config: cp.0 }, cp.1)),
                    None => None,
                }
            } else {
                None
            }
        },
        None => None,
    }
}

pub proof fn lemma_host_ble_command_round_trip(v: HostBLECommand, rest: Seq<u8>)
    ensures
        spec_dec_host_ble_command(spec_enc_host_ble_command(v) + rest) == Some((v@, rest)),
{
    match v {
        HostBLECommand::SetState { state } => {
            assert(spec_enc_host_ble_command(v) + rest =~= spec_enc_u8(0) + (spec_enc_state(state)
                + rest));
            lemma_u8_round_trip(0, spec_enc_state(state) + rest);
            lemma_state_round_trip(state, rest);
        },
        HostBLECommand::GetWidget { widget_id } => {
            assert(spec_enc_host_ble_command(v) + rest =~= spec_enc_u8(1) + (spec_enc_widget_id(
                widget_id,
            ) + rest));
            lemma_u8_round_trip(1, spec_enc_widget_id(widget_id) + rest);
            lemma_widget_id_round_trip(widget_id, rest);
        },
        HostBLECommand::SetConfig { config } => {
            assert(spec_enc_host_ble_command(v) + rest =~= spec_enc_u8(2) + (spec_enc_config(
                config,
            ) + rest));
            lemma_u8_round_trip(2, spec_enc_config(config) + rest);
            lemma_config_round_trip(config, rest);
        },
    }
}

pub fn enc_host_ble_command(out: &mut Vec<u8>, v: &HostBLECommand)
    ensures
        final(out)@ == old(out)@ + spec_enc_host_ble_command(*v),
{
    match v {
        HostBLECommand::SetState { state } => {
            enc_u8(out, 0);
            enc_state(out, state);
        },
        HostBLECommand::GetWidget { widget_id } => {
            enc_u8(out, 1);
            enc_widget_id(out, *widget_id);
        },
        HostBLECommand::SetConfig { config } => {
            enc_u8(out, 2);
            enc_config(out, *config);
        },
    }
    assert(out@ =~= old(out)@ + spec_enc_host_ble_command(*v));
}

pub fn dec_host_ble_command(s: &[u8], pos: usize) -> (r: Option<(HostBLECommand, usize)>)
    requires
        pos <= s.len(),
    ensures
        decodes_to::<HostBLECommand>(
            s@,
            pos as int,
            spec_dec_host_ble_command(s@.skip(pos as int)),
            r,
        ),
{
    match dec_u8(s, pos) {
        Some((tag, p)) => {
            if tag == 0 {
                match dec_state(s, p) {
                    Some((state, q)) => Some((HostBLECommand::SetState { state }, q)),
                    None => None,
                }
            } else if tag == 1 {
                match dec_widget_id(s, p) {
                    Some((widget_id, q)) => Some((HostBLECommand::GetWidget { widget_id }, q)),
                    None => None,
                }
            } else if tag == 2 {
                match dec_config(s, p) {
                    Some((config, q)) => Some((HostBLECommand::SetConfig { config }, q)),
                    None => None,
                }
            } else {
                None
            }
        },
        None => None,
    }
}

pub open spec fn spec_enc_device_ble_response(v: DeviceBLEResponse) -> Seq<u8> {
    match v {
        DeviceBLEResponse::WidgetGet { result } => spec_enc_u8(0) + spec_enc_result_widget(result),
        DeviceBLEResponse::SetState { result } => spec_enc_u8(1) + spec_enc_result_unit(result),
        DeviceBLEResponse::ConfigSet { result } => spec_enc_u8(2) + spec_enc_result_unit(result),
    }
}

pub open spec fn spec_dec_device_ble_response(s: Seq<u8>) -> Option<(DeviceBLEResponseV, Seq<u8>)> {
    match spec_dec_u8(s) {
        Some(tp) => {
            if tp.0 == 0 {
                match spec_dec_result_widget(tp.1) {
                    Some(rp) => Some((DeviceBLEResponseV::WidgetGet { result: rp.0 }, rp.1)),
                    None => None,
                }
            } else if tp.0 == 1 {
                match spec_dec_result_unit(tp.1) {
                    Some(rp) => Some((DeviceBLEResponseV::SetState { result: rp.0 }, rp.1)),
                    None => None,
                }
            } else if tp.0 == 2 {
                match spec_dec_result_unit(tp.1) {
                    Some(rp) => Some((DeviceBLEResponseV::ConfigSet { result: rp.0 }, rp.1)),
                    None => None,
                }
            } else {
                None
            }
        },
        None => None,
    }
}

pub proof fn lemma_device_ble_response_round_trip(v: DeviceBLEResponse, rest: Seq<u8>)
    ensures
        spec_dec_device_ble_response(spec_enc_device_ble_response(v) + rest) == Some((v@, rest)),
{
    match v {
        DeviceBLEResponse::WidgetGet { result } => {
            assert(spec_enc_device_ble_response(v) + rest =~= spec_enc_u8(0) + (
            spec_enc_result_widget(result) + rest));
            lemma_u8_round_trip(0, spec_enc_result_widget(result) + rest);
            lemma_result_widget_round_trip(result, rest);
        },
        DeviceBLEResponse::SetState { result } => {
            assert(spec_enc_device_ble_response(v) + rest =~= spec_enc_u8(1) + (
            spec_enc_result_unit(result) + rest));
            lemma_u8_round_trip(1, spec_enc_result_unit(result) + rest);
            lemma_result_unit_round_trip(result, rest);
        },
        DeviceBLEResponse::ConfigSet { result } => {
            assert(spec_enc_device_ble_response(v) + rest =~= spec_enc_u8(2) + (
            spec_enc_result_unit(result) + rest));
            lemma_u8_round_trip(2, spec_enc_result_unit(result) + rest);
            lemma_result_unit_round_trip(result, rest);
        },
    }
}

pub fn enc_device_ble_response(out: &mut Vec<u8>, v: &DeviceBLEResponse)
    ensures
        final(out)@ == old(out)@ + spec_enc_device_ble_response(*v),
{
    match v {
        DeviceBLEResponse::WidgetGet { result } => {
            enc_u8(out, 0);
            enc_result_widget(out, result);
        },
        DeviceBLEResponse::SetState { result } => {
            enc_u8(out, 1);
            enc_result_unit(out, result);
        },
        DeviceBLEResponse::ConfigSet { result } => {
            enc_u8(out, 2);
            enc_result_unit(out, result);
        },
    }
    assert(out@ =~= old(out)@ + spec_enc_device_ble_response(*v));
}

pub fn dec_device_ble_response(s: &[u8], pos: usize) -> (r: Option<(DeviceBLEResponse, usize)>)
    requires
        pos <= s.len(),
    ensures
        decodes_to::<DeviceBLEResponse>(
            s@,
            pos as int,
            spec_dec_device_ble_response(s@.skip(pos as int)),
            r,
        ),
{
    match dec_u8(s, pos) {
        Some((tag, p)) => {
            if tag == 0 {
                match dec_result_widget(s, p) {
                    Some((result, q)) => Some((DeviceBLEResponse::WidgetGet { result }, q)),
                    None => None,
                }
            } else if tag == 1 {
                match dec_result_unit(s, p) {
                    Some((result, q)) => Some((DeviceBLEResponse::SetState { result }, q)),
                    None => None,
                }
            } else if tag == 2 {
                match dec_result_unit(s, p) {
                    Some((result, q)) => Some((DeviceBLEResponse::ConfigSet { result }, q)),
                    None => None,
                }
            } else {
                None
            }
        },
        None => None,
    }
}

pub open spec fn spec_enc_device_ble_packet(v: DeviceBLEPacket) -> Seq<u8> {
    match v {
        DeviceBLEPacket::Command(c) => spec_enc_u8(0) + spec_enc_device_ble_command(c),
        DeviceBLEPacket::Response(r) => spec_enc_u8(1) + spec_enc_device_ble_response(r),
    }
}

pub open spec fn spec_dec_device_ble_packet(s: Seq<u8>) -> Option<(DeviceBLEPacketV, Seq<u8>)> {
    match spec_dec_u8(s) {
        Some(tp) => {
            if tp.0 == 0 {
                match spec_dec_device_ble_command(tp.1) {
                    Some(cp) => Some((DeviceBLEPacketV::Command(cp.0), cp.1)),
                    None => None,
                }
            } else if tp.0 == 1 {
                match spec_dec_device_ble_response(tp.1) {
                    Some(rp) => Some((DeviceBLEPacketV::Response(rp.0), rp.1)),
                    None => None,
                }
            } else {
                None
            }
        },
        None => None,
    }
}

pub proof fn lemma_device_ble_packet_round_trip(v: DeviceBLEPacket, rest: Seq<u8>)
    ensures
        spec_dec_device_ble_packet(spec_enc_device_ble_packet(v) + rest) == Some((v@, rest)),
{
    match v {
        DeviceBLEPacket::Command(c) => {
            assert(spec_enc_device_ble_packet(v) + rest =~= spec_enc_u8(0) + (
            spec_enc_device_ble_command(c) + rest));
            lemma_u8_round_trip(0, spec_enc_device_ble_command(c) + rest);
            lemma_device_ble_command_round_trip(c, rest);
        },
        DeviceBLEPacket::Response(r) => {
            assert(spec_enc_device_ble_packet(v) + rest =~= spec_enc_u8(1) + (
            spec_enc_device_ble_response(r) + rest));
            lemma_u8_round_trip(1, spec_enc_device_ble_response(r) + rest);
            lemma_device_ble_response_round_trip(r, rest);
        },
    }
}

pub fn enc_device_ble_packet(out: &mut Vec<u8>, v: &DeviceBLEPacket)
    ensures
        final(out)@ == old(out)@ + spec_enc_device_ble_packet(*v),
{
    match v {
        DeviceBLEPacket::Command(c) => {
            enc_u8(out, 0);
            enc_device_ble_command(out, c);
        },
        DeviceBLEPacket::Response(r) => {
            enc_u8(out, 1);
            enc_device_ble_response(out, r);
        },
    }
    assert(out@ =~= old(out)@ + spec_enc_device_ble_packet(*v));
}

pub fn dec_device_ble_packet(s: &[u8], pos: usize) -> (r: Option<(DeviceBLEPacket, usize)>)
    requires
        pos <= s.len(),
    ensures
        decodes_to::<DeviceBLEPacket>(
            s@,
            pos as int,
            spec_dec_device_ble_packet(s@.skip(pos as int)),
            r,
        ),
{
    match dec_u8(s, pos) {
        Some((tag, p)) => {
            if tag == 0 {
                match dec_device_ble_command(s, p) {
                    Some((c, q)) => Some((DeviceBLEPacket::Command(c), q)),
                    None => None,
                }
            } else if tag == 1 {
                match dec_device_ble_response(s, p) {
                    Some((x, q)) => Some((DeviceBLEPacket::Response(x), q)),
                    None => None,
                }
            } else {
                None
            }
        },
        None => None,
    }
}

pub open spec fn spec_enc_host_ble_packet(v: HostBLEPacket) -> Seq<u8> {
    match v {
        HostBLEPacket::Command(c) => spec_enc_u8(0) + spec_enc_host_ble_command(c),
        HostBLEPacket::Response(r) => spec_enc_u8(1) + spec_enc_host_ble_response(r),
    }
}

pub open spec fn spec_dec_host_ble_packet(s: Seq<u8>) -> Option<(HostBLEPacketV, Seq<u8>)> {
    match spec_dec_u8(s) {
        Some(tp) => {
            if tp.0 == 0 {
                match spec_dec_host_ble_command(tp.1) {
                    Some(cp) => Some((HostBLEPacketV::Command(cp.0), cp.1)),
                    None => None,
                }
            } else if tp.0 == 1 {
                match spec_dec_host_ble_response(tp.1) {
                    Some(rp) => Some((HostBLEPacketV::Response(rp.0), rp.1)),
                    None => None,
                }
            } else {
                None
            }
        },
        None => None,
    }
}

pub proof fn lemma_host_ble_packet_round_trip(v: HostBLEPacket, rest: Seq<u8>)
    ensures
        spec_dec_host_ble_packet(spec_enc_host_ble_packet(v) + rest) == Some((v@, rest)),
{
    match v {
        HostBLEPacket::Command(c) => {
            assert(spec_enc_host_ble_packet(v) + rest =~= spec_enc_u8(0) + (
            spec_enc_host_ble_command(c) + rest));
            lemma_u8_round_trip(0, spec_enc_host_ble_command(c) + rest);
            lemma_host_ble_command_round_trip(c, rest);
        },
        HostBLEPacket::Response(r) => {
            assert(spec_enc_host_ble_packet(v) + rest =~= spec_enc_u8(1) + (
            spec_enc_host_ble_response(r) + rest));
            lemma_u8_round_trip(1, spec_enc_host_ble_response(r) + rest);
            lemma_host_ble_response_round_trip(r, rest);
        },
    }
}

pub fn enc_host_ble_packet(out: &mut Vec<u8>, v: &HostBLEPacket)
    ensures
        final(out)@ == old(out)@ + spec_enc_host_ble_packet(*v),
{
    match v {
        HostBLEPacket::Command(c) => {
            enc_u8(out, 0);
            enc_host_ble_command(out, c);
        },
        HostBLEPacket::Response(r) => {
            enc_u8(out, 1);
            enc_host_ble_response(out, r);
        },
    }
    assert(out@ =~= old(out)@ + spec_enc_host_ble_packet(*v));
}

pub fn dec_host_ble_packet(s: &[u8], pos: usize) -> (r: Option<(HostBLEPacket, usize)>)
    requires
        pos <= s.len(),
    ensures
        decodes_to::<HostBLEPacket>(
            s@,
            pos as int,
            spec_dec_host_ble_packet(s@.skip(pos as int)),
            r,
        ),
{
    match dec_u8(s, pos) {
        Some((tag, p)) => {
            if tag == 0 {
                match dec_host_ble_command(s, p) {
                    Some((c, q)) => Some((HostBLEPacket::Command(c), q)),
                    None => None,
                }
            } else if tag == 1 {
                match dec_host_ble_response(s, p) {
                    Some((x, q)) => Some((HostBLEPacket::Response(x), q)),
                    None => None,
                }
            } else {
                None
            }
        },
        None => None,
    }
}

pub open spec fn spec_enc_ble_packet(v: BLEPacket) -> Seq<u8> {
    spec_enc_u32(v.id) + (match v.payload {
        BLEPacketPayload::DevicePacket(p) => spec_enc_u8(0) + spec_enc_device_ble_packet(p),
        BLEPacketPayload::HostPacket(p) => spec_enc_u8(1) + spec_enc_host_ble_packet(p),
    })
}

pub open spec fn spec_dec_ble_packet(s: Seq<u8>) -> Option<(BLEPacketV, Seq<u8>)> {
    match spec_dec_u32(s) {
        Some(np) => match spec_dec_u8(np.1) {
            Some(tp) => {
                if tp.0 == 0 {
                    match spec_dec_device_ble_packet(tp.1) {
                        Some(pp) => Some(
                            (
                                BLEPacketV {
                                    payload: BLEPacketPayloadV::DevicePacket(pp.0),
                                    id: np.0,
                                },
                                pp.1,
                            ),
                        ),
                        None => None,
                    }
                } else if tp.0 == 1 {
                    match spec_dec_host_ble_packet(tp.1) {
                        Some(pp) => Some(
                            (
                                BLEPacketV { payload: BLEPacketPayloadV::HostPacket(pp.0), id: np.0 },
                                pp.1,
                            ),
                        ),
                        None => None,
                    }
                } else {
                    None
                }
            },
            None => None,
        },
        None => None,
    }
}

/// BLE round trip: decoding an encoded packet, with any trailing bytes —
/// the zero padding of a fixed frame included — yields the packet back and
/// leaves the trailing bytes alone.
pub proof fn lemma_ble_packet_round_trip(v: BLEPacket, rest: Seq<u8>)
    ensures
        spec_dec_ble_packet(spec_enc_ble_packet(v) + rest) == Some((v@, rest)),
{
    match v.payload {
        BLEPacketPayload::DevicePacket(p) => {
            assert(spec_enc_ble_packet(v) + rest =~= spec_enc_u32(v.id) + (spec_enc_u8(0) + (
            spec_enc_device_ble_packet(p) + rest)));
            lemma_u32_round_trip(v.id, spec_enc_u8(0) + (spec_enc_device_ble_packet(p) + rest));
            lemma_u8_round_trip(0, spec_enc_device_ble_packet(p) + rest);
            lemma_device_ble_packet_round_trip(p, rest);
        },
        BLEPacketPayload::HostPacket(p) => {
            assert(spec_enc_ble_packet(v) + rest =~= spec_enc_u32(v.id) + (spec_enc_u8(1) + (
            spec_enc_host_ble_packet(p) + rest)));
            lemma_u32_round_trip(v.id, spec_enc_u8(1) + (spec_enc_host_ble_packet(p) + rest));
            lemma_u8_round_trip(1, spec_enc_host_ble_packet(p) + rest);
            lemma_host_ble_packet_round_trip(p, rest);
        },
    }
}

pub fn enc_ble_packet(out: &mut Vec<u8>, v: &BLEPacket)
    ensures
        final(out)@ == old(out)@ + spec_enc_ble_packet(*v),
{
    enc_u32(out, v.id);
    match &v.payload {
        BLEPacketPayload::DevicePacket(p) => {
            enc_u8(out, 0);
            enc_device_ble_packet(out, p);
        },
        BLEPacketPayload::HostPacket(p) => {
            enc_u8(out, 1);
            enc_host_ble_packet(out, p);
        },
    }
    assert(out@ =~= old(out)@ + spec_enc_ble_packet(*v));
}

pub fn dec_ble_packet(s: &[u8], pos: usize) -> (r: Option<(BLEPacket, usize)>)
    requires
        pos <= s.len(),
    ensures
        decodes_to::<BLEPacket>(s@, pos as int, spec_dec_ble_packet(s@.skip(pos as int)), r),
{
    match dec_u32(s, pos) {
        Some((id, p0)) => match dec_u8(s, p0) {
            Some((tag, p1)) => {
                if tag == 0 {
                    match dec_device_ble_packet(s, p1) {
                        Some((p, q)) => Some(
                            (BLEPacket { payload: BLEPacketPayload::DevicePacket(p), id }, q),
                        ),
                        None => None,
                    }
                } else if tag == 1 {
                    match dec_host_ble_packet(s, p1) {
                        Some((p, q)) => Some(
                            (BLEPacket { payload: BLEPacketPayload::HostPacket(p), id }, q),
                        ),
                        None => None,
                    }
                } else {
                    None
                }
            },
            None => None,
        },
        None => None,
    }
}

// ---------------------------------------------------------------------------
// Fixed-width framing
// ---------------------------------------------------------------------------

/// Frame a packet for one characteristic write: exactly
/// [`crate::BLE_CHAR_SIZE`] bytes, the encoded packet first, zeros after.
/// A packet whose encoding does not fit a single frame is refused with the
/// hard outgoing-path error: the link never fragments, and nothing is
/// written.
pub fn encode_ble_frame(v: &BLEPacket) -> (r: Result<Vec<u8>, TransError>)
    ensures
        spec_enc_ble_packet(*v).len() <= BLE_CHAR_SIZE <==> r is Ok,
        r matches Ok(f) ==> {
            &&& f@.len() == BLE_CHAR_SIZE
            &&& f@.take(spec_enc_ble_packet(*v).len() as int) == spec_enc_ble_packet(*v)
            &&& forall|i: int|
                spec_enc_ble_packet(*v).len() <= i < BLE_CHAR_SIZE ==> f@[i] == 0
        },
        r matches Err(e) ==> e == TransError::InternalError,
{
    let mut frame: Vec<u8> = Vec::new();
    enc_ble_packet(&mut frame, v);
    if frame.len() > BLE_CHAR_SIZE {
        return Err(TransError::InternalError);
    }
    let ghost enc = frame@;
    while frame.len() < BLE_CHAR_SIZE
        invariant
            enc.len() <= frame@.len() <= BLE_CHAR_SIZE,
            frame@.take(enc.len() as int) == enc,
            forall|i: int| enc.len() <= i < frame@.len() ==> frame@[i] == 0,
        decreases BLE_CHAR_SIZE - frame.len(),
    {
        frame.push(0);
        proof {
            assert(frame@.take(enc.len() as int) =~= enc);
        }
    }
    Ok(frame)
}

/// BLE frame round trip: decoding all [`crate::BLE_CHAR_SIZE`] bytes of a
/// frame that starts with an encoded packet — as every frame
/// [`encode_ble_frame`] writes does — yields that very packet; whatever
/// pads the frame out is ignored.
pub proof fn lemma_ble_frame_round_trip(v: BLEPacket, frame: Seq<u8>)
    requires
        frame.len() == BLE_CHAR_SIZE,
        spec_enc_ble_packet(v).len() <= BLE_CHAR_SIZE,
        frame.take(spec_enc_ble_packet(v).len() as int) == spec_enc_ble_packet(v),
    ensures
        spec_dec_ble_packet(frame) matches Some(vp) && vp.0 == v@,
{
    let enc = spec_enc_ble_packet(v);
    let rest = frame.skip(enc.len() as int);
    assert(frame =~= enc + rest);
    lemma_ble_packet_round_trip(v, rest);
}

/// Decode the packet at the front of one characteristic frame; the zero
/// padding after it is ignored. A frame that holds no valid packet is an
/// invalid message: it is dropped and the link stays up.
pub fn decode_ble_frame(bytes: &[u8]) -> (r: Result<BLEPacket, TransError>)
    ensures
        match spec_dec_ble_packet(bytes@) {
            Some(vp) => r matches Ok(p) && p@ == vp.0,
            None => r == Err::<BLEPacket, TransError>(TransError::InvalidMessage),
        },
{
    proof {
        assert(bytes@.skip(0) =~= bytes@);
    }
    match dec_ble_packet(bytes, 0) {
        Some((p, _)) => Ok(p),
        None => Err(TransError::InvalidMessage),
    }
}

} // verus!
