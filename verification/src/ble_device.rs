//! The device (peripheral) side of the BLE link.
//!
//! The GATT server, the advertise loop and the characteristic writes live
//! with the radio driver. Here stand the connection flag, the message-id
//! counter, the fixed inflight slots, the framing of outgoing commands and
//! the dispatch of every packet written to the RX characteristic.

use crate::ble_types::{
    BLEPacket, BLEPacketPayload, DeviceBLECommand, DeviceBLEPacket, DeviceBLEResponse,
    HostBLECommand, HostBLEPacket, HostBLEResponse, MessageID,
};
use crate::errors::{TransError, TransResult};
use crate::ids::{step_id, MessageCounter};
use crate::inflight::{spec_slot_index, InflightSlots};
use crate::stream::{DeviceResponse, HostRequest};
use crate::widgets::MemoriWidget;
use vstd::prelude::*;

verus! {

/// A command queued for the sender task, with the identifier its response
/// will carry.
#[derive(Debug, PartialEq, Eq)]
pub struct OutgoingCommand {
    pub cmd: DeviceBLECommand,
    pub id: MessageID,
}

/// Which host response a pending device command awaits.
#[derive(Clone, Copy, Debug, PartialEq, Eq, Structural)]
pub enum ExpectedHost {
    RefreshData,
    Ping,
}

/// The response variant a command awaits.
pub open spec fn spec_expected_for(cmd: DeviceBLECommand) -> ExpectedHost {
    match cmd {
        DeviceBLECommand::RefreshData { .. } => ExpectedHost::RefreshData,
        DeviceBLECommand::Ping => ExpectedHost::Ping,
    }
}

/// A response delivered to a waiting device-side initiator.
#[derive(Debug, PartialEq, Eq)]
pub enum BleDeliver {
    Refresh(TransResult<MemoriWidget>),
    Ping(TransResult<()>),
}

/// Exactly how a host response resolves against the awaited variant:
/// delivery when it answers what the slot awaited, a protocol issue
/// otherwise.
pub open spec fn spec_resolve(id: MessageID, expected: ExpectedHost, resp: HostBLEResponse) -> DeviceBleDispatch {
    match (expected, resp) {
        (ExpectedHost::RefreshData, HostBLEResponse::RefreshData { result }) => {
            DeviceBleDispatch::Delivered(id, BleDeliver::Refresh(result))
        },
        (ExpectedHost::Ping, HostBLEResponse::Ping { result }) => {
            DeviceBleDispatch::Delivered(id, BleDeliver::Ping(result))
        },
        _ => DeviceBleDispatch::ProtocolMismatch(id),
    }
}

/// What the device does with one packet written to its RX characteristic.
#[derive(Debug, PartialEq, Eq)]
pub enum DeviceBleDispatch {
    /// A host command, handed to the command handler under its identifier.
    HostCommand(MessageID, HostBLECommand),
    /// A response matched to the slot its identifier maps to and
    /// delivered to the waiting initiator.
    Delivered(MessageID, BleDeliver),
    /// A response whose variant does not fit the awaited one: the
    /// initiator observes a protocol issue.
    ProtocolMismatch(MessageID),
    /// A response whose slot holds no waiter: logged and dropped.
    DroppedUnknown(MessageID),
    /// A device-originated packet arriving on RX: protocol misuse by the
    /// peer; the packet is ignored.
    Misuse,
}

/// A host command arriving over BLE, in the command handler's request
/// vocabulary: the device serves both links with one handler.
pub fn ble_command_to_request(cmd: HostBLECommand) -> (r: HostRequest)
    ensures
        cmd matches HostBLECommand::SetState { state } ==> r == HostRequest::SetState(state),
        cmd matches HostBLECommand::GetWidget { widget_id } ==> r == HostRequest::GetWidget(
            widget_id,
        ),
        cmd matches HostBLECommand::SetConfig { config } ==> r == HostRequest::SetConfig(config),
{
    match cmd {
        HostBLECommand::SetState { state } => HostRequest::SetState(state),
        HostBLECommand::GetWidget { widget_id } => HostRequest::GetWidget(widget_id),
        HostBLECommand::SetConfig { config } => HostRequest::SetConfig(config),
    }
}

/// The handler's answer in the BLE response vocabulary. The variants that
/// only the stream link carries — battery level, pong, general success —
/// have no BLE counterpart (battery is read straight from its
/// characteristic), so they map to nothing.
pub fn response_to_ble(resp: DeviceResponse) -> (r: Option<DeviceBLEResponse>)
    ensures
        resp matches DeviceResponse::WidgetGet(result) ==> r == Some(
            DeviceBLEResponse::WidgetGet { result },
        ),
        resp matches DeviceResponse::SetState(result) ==> r == Some(
            DeviceBLEResponse::SetState { result },
        ),
        resp matches DeviceResponse::ConfigSet(result) ==> r == Some(
            DeviceBLEResponse::ConfigSet { result },
        ),
        resp is BatteryLevel || resp is Pong || resp is Success ==> r is None,
{
    match resp {
        DeviceResponse::WidgetGet(result) => Some(DeviceBLEResponse::WidgetGet { result }),
        DeviceResponse::SetState(result) => Some(DeviceBLEResponse::SetState { result }),
        DeviceResponse::ConfigSet(result) => Some(DeviceBLEResponse::ConfigSet { result }),
        DeviceResponse::BatteryLevel(_) => None,
        DeviceResponse::Pong => None,
        DeviceResponse::Success => None,
    }
}

/// Where the peripheral's advertise loop stands.
#[derive(Clone, Copy, Debug, PartialEq, Eq, Structural)]
pub enum AdvertiseState {
    /// Broadcasting the device name, waiting for a central.
    Advertising,
    /// A central is connected; packets flow.
    Connected,
    /// No connection and not yet advertising again.
    Disconnected,
}

/// What the radio reports to the advertise loop.
#[derive(Clone, Copy, Debug, PartialEq, Eq, Structural)]
pub enum AdvertiseEvent {
    /// Startup, or the loop coming around after a loss: begin advertising.
    StartAdvertising,
    /// A central accepted the advertisement.
    CentralConnected,
    /// The GATT connection ended.
    GattDisconnected,
}

/// The peripheral's advertise cycle: disconnected endpoints return to
/// advertising, an accepted advertisement connects, and a GATT disconnect
/// drops the connection; every other pairing of state and event changes
/// nothing.
pub fn advertise_step(state: AdvertiseState, event: AdvertiseEvent) -> (r: AdvertiseState)
    ensures
        state == AdvertiseState::Disconnected && event == AdvertiseEvent::StartAdvertising ==> r
            == AdvertiseState::Advertising,
        state == AdvertiseState::Advertising && event == AdvertiseEvent::CentralConnected ==> r
            == AdvertiseState::Connected,
        state == AdvertiseState::Connected && event == AdvertiseEvent::GattDisconnected ==> r
            == AdvertiseState::Disconnected,
        !((state == AdvertiseState::Disconnected && event == AdvertiseEvent::StartAdvertising) || (
        state == AdvertiseState::Advertising && event == AdvertiseEvent::CentralConnected) || (state
            == AdvertiseState::Connected && event == AdvertiseEvent::GattDisconnected)) ==> r
            == state,
{
    match (state, event) {
        (AdvertiseState::Disconnected, AdvertiseEvent::StartAdvertising) => {
            AdvertiseState::Advertising
        },
        (AdvertiseState::Advertising, AdvertiseEvent::CentralConnected) => {
            AdvertiseState::Connected
        },
        (AdvertiseState::Connected, AdvertiseEvent::GattDisconnected) => {
            AdvertiseState::Disconnected
        },
        _ => state,
    }
}

/// The device's BLE endpoint state: the connection flag the advertise
/// loop toggles, the wrapping message-id counter, and the fixed array of
/// response slots.
pub struct DeviceBLETransport {
    connected: bool,
    counter: MessageCounter,
    inflight: InflightSlots<ExpectedHost>,
}

impl DeviceBLETransport {
    /// The slot array always holds exactly [`crate::MAX_INFLIGHT`] slots,
    /// so the slot a response lands in is always in range.
    pub open spec fn wf(&self) -> bool {
        self.spec_slots().len() == crate::MAX_INFLIGHT
    }

    pub closed spec fn spec_connected(&self) -> bool {
        self.connected
    }

    pub closed spec fn spec_next_id(&self) -> u32 {
        self.counter.spec_next()
    }

    pub closed spec fn spec_slots(&self) -> Seq<Option<ExpectedHost>> {
        self.inflight@
    }

    /// A fresh endpoint: disconnected, counting from zero, all slots
    /// empty.
    pub fn new() -> (r: DeviceBLETransport)
        ensures
            r.wf(),
            !r.spec_connected(),
            r.spec_next_id() == 0,
            forall|i: int| 0 <= i < crate::MAX_INFLIGHT ==> r.spec_slots()[i] is None,
    {
        DeviceBLETransport {
            connected: false,
            counter: MessageCounter::new(),
            inflight: InflightSlots::new(),
        }
    }

    /// Record a connect or disconnect observed by the advertise loop.
    pub fn set_connected(&mut self, connected: bool)
        ensures
            final(self).spec_connected() == connected,
            final(self).spec_next_id() == old(self).spec_next_id(),
            final(self).spec_slots() == old(self).spec_slots(),
            final(self).wf() == old(self).wf(),
    {
        self.connected = connected;
    }

    /// The health check initiator calls short-circuit on.
    pub fn is_connected(&self) -> (r: bool)
        ensures
            r == self.spec_connected(),
    {
        self.connected
    }

    /// Start a command toward the host: refused outright while
    /// disconnected; otherwise the next identifier is allocated, the slot
    /// it maps to is parked with the awaited response variant — a still
    /// pending slot is overwritten, the documented cost of running more
    /// than [`crate::MAX_INFLIGHT`] requests at once — and the command is
    /// handed back for the sender queue.
    pub fn begin_command(&mut self, cmd: DeviceBLECommand) -> (r: Result<
        (MessageID, OutgoingCommand),
        TransError,
    >)
        requires
            old(self).wf(),
        ensures
            final(self).wf(),
            final(self).spec_connected() == old(self).spec_connected(),
            old(self).spec_connected() <==> r is Ok,
            r matches Err(e) ==> e == TransError::NotConnected && final(self).spec_next_id() == old(
                self).spec_next_id() && final(self).spec_slots() == old(self).spec_slots(),
            r matches Ok(t) ==> {
                &&& t.0 == old(self).spec_next_id()
                &&& t.1 == (OutgoingCommand { cmd, id: t.0 })
                &&& final(self).spec_next_id() == step_id(t.0, 1)
                &&& final(self).spec_slots() == old(self).spec_slots().update(
                    spec_slot_index(t.0),
                    Some(spec_expected_for(cmd)),
                )
            },
    {
        if !self.connected {
            return Err(TransError::NotConnected);
        }
        let id = self.counter.get_next_id();
        let expected = match cmd {
            DeviceBLECommand::RefreshData { .. } => ExpectedHost::RefreshData,
            DeviceBLECommand::Ping => ExpectedHost::Ping,
        };
        self.inflight.store(id, expected);
        Ok((id, OutgoingCommand { cmd, id }))
    }

    /// Frame a queued command as the packet the sender task notifies.
    pub fn command_packet(&self, out: &OutgoingCommand) -> (r: BLEPacket)
        ensures
            r.id == out.id,
            r.payload == BLEPacketPayload::DevicePacket(DeviceBLEPacket::Command(out.cmd)),
    {
        BLEPacket {
            payload: BLEPacketPayload::DevicePacket(DeviceBLEPacket::Command(out.cmd)),
            id: out.id,
        }
    }

    /// Frame the command handler's answer, echoing the host command's
    /// identifier.
    pub fn response_packet(&self, id: MessageID, resp: DeviceBLEResponse) -> (r: BLEPacket)
        ensures
            r.id == id,
            r.payload == BLEPacketPayload::DevicePacket(DeviceBLEPacket::Response(resp)),
    {
        BLEPacket { payload: BLEPacketPayload::DevicePacket(DeviceBLEPacket::Response(resp)), id }
    }

    /// Dispatch one packet written to the RX characteristic.
    ///
    /// A host command is handed on under its identifier. A host response
    /// empties the slot its identifier maps to — a second arrival finds
    /// the slot empty and is dropped — and reaches the waiting initiator
    /// if its variant answers what the slot awaited, or surfaces as a
    /// protocol issue if not. Device-originated packets on RX are misuse
    /// and are ignored.
    pub fn handle_packet(&mut self, p: BLEPacket) -> (r: DeviceBleDispatch)
        requires
            old(self).wf(),
        ensures
            final(self).wf(),
            final(self).spec_connected() == old(self).spec_connected(),
            final(self).spec_next_id() == old(self).spec_next_id(),
            match p.payload {
                BLEPacketPayload::HostPacket(HostBLEPacket::Command(cmd)) => r
                    == DeviceBleDispatch::HostCommand(p.id, cmd) && final(self).spec_slots() == old(
                    self).spec_slots(),
                BLEPacketPayload::HostPacket(HostBLEPacket::Response(resp)) => {
                    &&& final(self).spec_slots() == old(self).spec_slots().update(
                        spec_slot_index(p.id),
                        None,
                    )
                    &&& match old(self).spec_slots()[spec_slot_index(p.id)] {
                        None => r == DeviceBleDispatch::DroppedUnknown(p.id),
                        Some(expected) => r == spec_resolve(p.id, expected, resp),
                    }
                },
                BLEPacketPayload::DevicePacket(_) => r == DeviceBleDispatch::Misuse && final(
                    self).spec_slots() == old(self).spec_slots(),
            },
    {
        match p.payload {
            BLEPacketPayload::HostPacket(HostBLEPacket::Command(cmd)) => {
                DeviceBleDispatch::HostCommand(p.id, cmd)
            },
            BLEPacketPayload::HostPacket(HostBLEPacket::Response(resp)) => {
                match self.inflight.take(p.id) {
                    Some(expected) => match (expected, resp) {
                        (ExpectedHost::RefreshData, HostBLEResponse::RefreshData { result }) => {
                            DeviceBleDispatch::Delivered(p.id, BleDeliver::Refresh(result))
                        },
                        (ExpectedHost::Ping, HostBLEResponse::Ping { result }) => {
                            DeviceBleDispatch::Delivered(p.id, BleDeliver::Ping(result))
                        },
                        _ => DeviceBleDispatch::ProtocolMismatch(p.id),
                    },
                    None => DeviceBleDispatch::DroppedUnknown(p.id),
                }
            },
            BLEPacketPayload::DevicePacket(_) => DeviceBleDispatch::Misuse,
        }
    }

    /// Abort the command with this identifier because its packet could not
    /// be notified on the characteristic: its slot is emptied — the
    /// waiting initiator fails promptly with the returned hard error
    /// instead of hanging until the timeout.
    pub fn on_write_failure(&mut self, id: MessageID) -> (r: TransError)
        requires
            old(self).wf(),
        ensures
            r == TransError::ProtocolIssue,
            final(self).wf(),
            final(self).spec_connected() == old(self).spec_connected(),
            final(self).spec_next_id() == old(self).spec_next_id(),
            final(self).spec_slots() == old(self).spec_slots().update(spec_slot_index(id), None),
    {
        let _ = self.inflight.take(id);
        TransError::ProtocolIssue
    }

    /// Give up on the command with this identifier: its slot is emptied —
    /// a late response finds nothing — and the initiator observes the
    /// returned timeout error.
    pub fn on_timeout(&mut self, id: MessageID) -> (r: TransError)
        requires
            old(self).wf(),
        ensures
            r == TransError::Timeout,
            final(self).wf(),
            final(self).spec_connected() == old(self).spec_connected(),
            final(self).spec_next_id() == old(self).spec_next_id(),
            final(self).spec_slots() == old(self).spec_slots().update(spec_slot_index(id), None),
    {
        let _ = self.inflight.take(id);
        TransError::Timeout
    }
}

} // verus!
