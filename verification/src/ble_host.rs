//! The host (central) side of the BLE link.
//!
//! Scanning, connecting, characteristic discovery and the notification
//! stream live with the Bluetooth driver. Here stand the scan filter's
//! name test, the message-id counter, the correlation table, the framing
//! of outgoing host packets, the battery-read parser, and the dispatch of
//! every TX notification.

use crate::ble_types::{
    BLEPacket, BLEPacketPayload, DeviceBLECommand, DeviceBLEPacket, DeviceBLEResponse,
    HostBLECommand, HostBLEPacket, HostBLEResponse, MessageID,
};
use crate::correlate::{spec_contains_id, unique_entry_ids, CorrelationTable};
use crate::errors::{TransError, TransResult};
use crate::ids::{step_id, MessageCounter};
use crate::widgets::MemoriWidget;
use vstd::prelude::*;
use vstd::slice::slice_index_get;

verus! {

/// Which device response a pending host command awaits.
#[derive(Clone, Copy, Debug, PartialEq, Eq, Structural)]
pub enum ExpectedDevice {
    WidgetGet,
    SetState,
    ConfigSet,
}

/// The response variant a command awaits.
pub open spec fn spec_expected_for(cmd: HostBLECommand) -> ExpectedDevice {
    match cmd {
        HostBLECommand::SetState { .. } => ExpectedDevice::SetState,
        HostBLECommand::GetWidget { .. } => ExpectedDevice::WidgetGet,
        HostBLECommand::SetConfig { .. } => ExpectedDevice::ConfigSet,
    }
}

/// A response delivered to a waiting host-side initiator.
#[derive(Debug, PartialEq, Eq)]
pub enum BleHostDeliver {
    Widget(TransResult<MemoriWidget>),
    SetState(TransResult<()>),
    Config(TransResult<()>),
}

/// Exactly how a device response resolves against the awaited variant:
/// delivery when it answers what the command asked, a protocol issue
/// otherwise.
pub open spec fn spec_resolve(id: MessageID, expected: ExpectedDevice, resp: DeviceBLEResponse) -> HostBleDispatch {
    match (expected, resp) {
        (ExpectedDevice::WidgetGet, DeviceBLEResponse::WidgetGet { result }) => {
            HostBleDispatch::Delivered(id, BleHostDeliver::Widget(result))
        },
        (ExpectedDevice::SetState, DeviceBLEResponse::SetState { result }) => {
            HostBleDispatch::Delivered(id, BleHostDeliver::SetState(result))
        },
        (ExpectedDevice::ConfigSet, DeviceBLEResponse::ConfigSet { result }) => {
            HostBleDispatch::Delivered(id, BleHostDeliver::Config(result))
        },
        _ => HostBleDispatch::ProtocolMismatch(id),
    }
}

/// What the host does with one TX notification.
#[derive(Debug, PartialEq, Eq)]
pub enum HostBleDispatch {
    /// A device command, handed to the local command handler under its
    /// identifier.
    DeviceCommand(MessageID, DeviceBLECommand),
    /// A response matched to the pending command with this identifier and
    /// delivered to its initiator.
    Delivered(MessageID, BleHostDeliver),
    /// A response whose variant does not fit the awaited one: the
    /// initiator observes a protocol issue.
    ProtocolMismatch(MessageID),
    /// A response nobody is waiting for: logged and dropped.
    DroppedUnknown(MessageID),
    /// A host-originated packet arriving back on TX: protocol misuse by
    /// the peer; the packet is ignored.
    Misuse,
}

/// The host's BLE endpoint state: the wrapping message-id counter and the
/// table of commands awaiting responses.
pub struct HostBLETransport {
    counter: MessageCounter,
    pending: CorrelationTable<ExpectedDevice>,
}

impl HostBLETransport {
    /// Each identifier holds at most one pending entry.
    pub open spec fn wf(&self) -> bool {
        unique_entry_ids(self.spec_pending())
    }

    pub closed spec fn spec_next_id(&self) -> u32 {
        self.counter.spec_next()
    }

    pub closed spec fn spec_pending(&self) -> Seq<(u32, ExpectedDevice)> {
        self.pending@
    }

    /// A fresh endpoint right after the driver has connected and
    /// subscribed: counting from zero, nothing pending.
    pub fn connect() -> (r: HostBLETransport)
        ensures
            r.wf(),
            r.spec_next_id() == 0,
            r.spec_pending() == Seq::<(u32, ExpectedDevice)>::empty(),
    {
        HostBLETransport { counter: MessageCounter::new(), pending: CorrelationTable::new() }
    }

    /// Start a command toward the device: allocate the next identifier,
    /// record which response is awaited under it, and frame the packet
    /// for the writer. A stale entry under a wrapped-around identifier is
    /// overwritten; the timeout regime reclaims entries long before the
    /// counter can come around.
    pub fn send_command(&mut self, cmd: HostBLECommand) -> (r: (MessageID, BLEPacket))
        requires
            old(self).wf(),
        ensures
            final(self).wf(),
            r.0 == old(self).spec_next_id(),
            final(self).spec_next_id() == step_id(r.0, 1),
            r.1.id == r.0,
            r.1.payload matches BLEPacketPayload::HostPacket(HostBLEPacket::Command(c)) && c == cmd,
            spec_contains_id(final(self).spec_pending(), r.0),
            !spec_contains_id(old(self).spec_pending(), r.0) ==> final(self).spec_pending() == old(
                self).spec_pending().push((r.0, spec_expected_for(cmd))),
            forall|k: u32|
                k != r.0 ==> (spec_contains_id(final(self).spec_pending(), k)
                    <==> spec_contains_id(old(self).spec_pending(), k)),
    {
        let id = self.counter.get_next_id();
        let _ = self.pending.remove(id);
        let ghost mid = self.pending@;
        let expected = match cmd {
            HostBLECommand::SetState { .. } => ExpectedDevice::SetState,
            HostBLECommand::GetWidget { .. } => ExpectedDevice::WidgetGet,
            HostBLECommand::SetConfig { .. } => ExpectedDevice::ConfigSet,
        };
        self.pending.insert(id, expected);
        proof {
            crate::correlate::lemma_push_preserves_other_ids(mid, id, expected);
        }
        (
            id,
            BLEPacket { payload: BLEPacketPayload::HostPacket(HostBLEPacket::Command(cmd)), id },
        )
    }

    /// Frame the local command handler's answer, echoing the device
    /// command's identifier.
    pub fn response_packet(&self, id: MessageID, resp: HostBLEResponse) -> (r: BLEPacket)
        ensures
            r.id == id,
            r.payload == BLEPacketPayload::HostPacket(HostBLEPacket::Response(resp)),
    {
        BLEPacket { payload: BLEPacketPayload::HostPacket(HostBLEPacket::Response(resp)), id }
    }

    /// Dispatch one packet read off a TX notification.
    ///
    /// A device command is handed on under its identifier. A device
    /// response claims the pending entry with its identifier, if one
    /// exists — the entry is removed, so a second response with the same
    /// identifier finds nothing and is dropped — and reaches its
    /// initiator if its variant answers the command, or surfaces as a
    /// protocol issue if not. Other pending commands are untouched.
    /// Host-originated packets are misuse and are ignored.
    pub fn handle_notification(&mut self, p: BLEPacket) -> (r: HostBleDispatch)
        requires
            old(self).wf(),
        ensures
            final(self).wf(),
            final(self).spec_next_id() == old(self).spec_next_id(),
            match p.payload {
                BLEPacketPayload::DevicePacket(DeviceBLEPacket::Command(cmd)) => r
                    == HostBleDispatch::DeviceCommand(p.id, cmd) && final(self).spec_pending()
                    == old(self).spec_pending(),
                BLEPacketPayload::DevicePacket(DeviceBLEPacket::Response(resp)) => {
                    if spec_contains_id(old(self).spec_pending(), p.id) {
                        &&& !spec_contains_id(final(self).spec_pending(), p.id)
                        &&& forall|k: u32|
                            k != p.id ==> (spec_contains_id(final(self).spec_pending(), k)
                                <==> spec_contains_id(old(self).spec_pending(), k))
                        &&& forall|i: int|
                            0 <= i < old(self).spec_pending().len() && old(
                                self).spec_pending()[i].0 == p.id ==> r == spec_resolve(
                                p.id,
                                old(self).spec_pending()[i].1,
                                resp,
                            )
                    } else {
                        r == HostBleDispatch::DroppedUnknown(p.id) && final(self).spec_pending()
                            == old(self).spec_pending()
                    }
                },
                BLEPacketPayload::HostPacket(_) => r == HostBleDispatch::Misuse && final(
                    self).spec_pending() == old(self).spec_pending(),
            },
    {
        match p.payload {
            BLEPacketPayload::DevicePacket(DeviceBLEPacket::Command(cmd)) => {
                HostBleDispatch::DeviceCommand(p.id, cmd)
            },
            BLEPacketPayload::DevicePacket(DeviceBLEPacket::Response(resp)) => {
                match self.pending.remove(p.id) {
                    Some(expected) => match (expected, resp) {
                        (ExpectedDevice::WidgetGet, DeviceBLEResponse::WidgetGet { result }) => {
                            HostBleDispatch::Delivered(p.id, BleHostDeliver::Widget(result))
                        },
                        (ExpectedDevice::SetState, DeviceBLEResponse::SetState { result }) => {
                            HostBleDispatch::Delivered(p.id, BleHostDeliver::SetState(result))
                        },
                        (ExpectedDevice::ConfigSet, DeviceBLEResponse::ConfigSet { result }) => {
                            HostBleDispatch::Delivered(p.id, BleHostDeliver::Config(result))
                        },
                        _ => HostBleDispatch::ProtocolMismatch(p.id),
                    },
                    None => HostBleDispatch::DroppedUnknown(p.id),
                }
            },
            BLEPacketPayload::HostPacket(_) => HostBleDispatch::Misuse,
        }
    }

    /// Abort the command with this identifier because its packet could not
    /// be written to the characteristic: its entry leaves the table — the
    /// waiting initiator fails promptly with the returned hard error
    /// instead of hanging until the timeout — and every other pending
    /// command is untouched.
    pub fn on_write_failure(&mut self, id: MessageID) -> (r: TransError)
        requires
            old(self).wf(),
        ensures
            r == TransError::ProtocolIssue,
            final(self).wf(),
            final(self).spec_next_id() == old(self).spec_next_id(),
            !spec_contains_id(final(self).spec_pending(), id),
            forall|k: u32|
                k != id ==> (spec_contains_id(final(self).spec_pending(), k) <==> spec_contains_id(
                    old(self).spec_pending(),
                    k,
                )),
    {
        let _ = self.pending.remove(id);
        TransError::ProtocolIssue
    }

    /// Give up on the command with this identifier: its entry leaves the
    /// table — a late response will find nothing and be dropped — and the
    /// initiator observes the returned timeout error.
    pub fn on_timeout(&mut self, id: MessageID) -> (r: TransError)
        requires
            old(self).wf(),
        ensures
            r == TransError::Timeout,
            final(self).wf(),
            final(self).spec_next_id() == old(self).spec_next_id(),
            !spec_contains_id(final(self).spec_pending(), id),
            forall|k: u32|
                k != id ==> (spec_contains_id(final(self).spec_pending(), k) <==> spec_contains_id(
                    old(self).spec_pending(),
                    k,
                )),
    {
        let _ = self.pending.remove(id);
        TransError::Timeout
    }
}

/// The host's answer to a device ping: acknowledged. Refresh-data
/// commands are answered by the upper layer's data dispatcher instead.
pub fn answer_ping() -> (r: HostBLEResponse)
    ensures
        r == (HostBLEResponse::Ping { result: Ok::<(), TransError>(()) }),
{
    HostBLEResponse::Ping { result: Ok(()) }
}

/// Parse a read of the battery level characteristic: exactly one byte,
/// the level. Anything else is an invalid message.
pub fn parse_battery_level(data: &[u8]) -> (r: TransResult<u8>)
    ensures
        data@.len() == 1 <==> r is Ok,
        r matches Ok(level) ==> level == data@[0],
        r matches Err(e) ==> e == TransError::InvalidMessage,
{
    if data.len() == 1 {
        Ok(*slice_index_get(data, 0))
    } else {
        Err(TransError::InvalidMessage)
    }
}

/// The advertised name the scan accepts: any local name that contains
/// `"memori"`.
pub open spec fn spec_name_matches(name: Seq<char>) -> bool {
    exists|i: int| 0 <= i && i + 6 <= name.len() && #[trigger] name.subrange(i, i + 6) == "memori"@
}

/// Does an advertised local name belong to a memori device? True exactly
/// when the name contains `"memori"`.
pub fn device_name_matches(name: &str) -> (r: bool)
    ensures
        r == spec_name_matches(name@),
{
    proof {
        reveal_strlit("memori");
    }
    let pattern: [char; 6] = ['m', 'e', 'm', 'o', 'r', 'i'];
    proof {
        reveal_strlit("m");
        reveal_strlit("e");
        reveal_strlit("o");
        reveal_strlit("r");
        reveal_strlit("i");
        assert(pattern@ =~= "memori"@);
    }
    let n = name.unicode_len();
    if n < 6 {
        return false;
    }
    let mut i: usize = 0;
    while i <= n - 6
        invariant
            n == name@.len(),
            n >= 6,
            pattern@ =~= "memori"@,
            i <= n - 6 + 1,
            forall|j: int| 0 <= j < i ==> #[trigger] name@.subrange(j, j + 6) != "memori"@,
        decreases n - i,
    {
        let mut k: usize = 0;
        let mut matched = true;
        while k < 6
            invariant
                n == name@.len(),
                i + 6 <= n,
                k <= 6,
                pattern@ =~= "memori"@,
                matched <==> forall|t: int| 0 <= t < k ==> name@[i + t] == pattern@[t],
            decreases 6 - k,
        {
            let c = name.get_char(i + k);
            let is_eq = c == pattern[k];
            matched = matched && is_eq;
            k = k + 1;
        }
        if matched {
            proof {
                assert(name@.subrange(i as int, i + 6) =~= "memori"@);
            }
            return true;
        }
        proof {
            assert(name@.subrange(i as int, i + 6) != "memori"@) by {
                if name@.subrange(i as int, i + 6) == "memori"@ {
                    let t = choose|t: int| 0 <= t < 6 && name@[i + t] != pattern@[t];
                    assert(name@.subrange(i as int, i + 6)[t] == name@[i + t]);
                }
            }
        }
        i = i + 1;
    }
    false
}

} // verus!
