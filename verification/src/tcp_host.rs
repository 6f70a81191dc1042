//! The host side of the stream link.
//!
//! As on the device side, sockets and tasks live with the driver; here
//! stand the even sequence counter, the correlation table, the framing of
//! the host's requests, and the dispatch of every incoming message.

use crate::config::DeviceConfig;
use crate::correlate::{spec_contains_id, CorrelationTable};
use crate::errors::{TransError, TransResult};
use crate::ids::SeqCounter;
use crate::state::MemoriState;
use crate::stream::{
    DeviceRequest, DeviceResponse, HostRequest, HostResponse, Message, MessageKind, Sequenced,
};
use crate::widgets::{MemoriWidget, WidgetId};
use vstd::prelude::*;

verus! {

/// Which device response a pending host request awaits.
#[derive(Clone, Copy, Debug, PartialEq, Eq, Structural)]
pub enum ExpectedDevice {
    WidgetGet,
    SetState,
    ConfigSet,
    BatteryLevel,
    Pong,
}

/// A response delivered to a waiting host-side initiator.
#[derive(Debug, PartialEq, Eq)]
pub enum HostDeliver {
    Widget(TransResult<MemoriWidget>),
    SetState(TransResult<()>),
    Config(TransResult<()>),
    Battery(u8),
    Pong,
}

/// Exactly how a device response resolves against the awaited variant:
/// delivery when it answers what the request asked, a protocol issue
/// otherwise.
pub open spec fn spec_resolve(seq: u32, expected: ExpectedDevice, resp: DeviceResponse) -> HostDispatch {
    match (expected, resp) {
        (ExpectedDevice::WidgetGet, DeviceResponse::WidgetGet(res)) => {
            HostDispatch::Delivered(seq, HostDeliver::Widget(res))
        },
        (ExpectedDevice::SetState, DeviceResponse::SetState(res)) => {
            HostDispatch::Delivered(seq, HostDeliver::SetState(res))
        },
        (ExpectedDevice::ConfigSet, DeviceResponse::ConfigSet(res)) => {
            HostDispatch::Delivered(seq, HostDeliver::Config(res))
        },
        (ExpectedDevice::BatteryLevel, DeviceResponse::BatteryLevel(level)) => {
            HostDispatch::Delivered(seq, HostDeliver::Battery(level))
        },
        (ExpectedDevice::Pong, DeviceResponse::Pong) => {
            HostDispatch::Delivered(seq, HostDeliver::Pong)
        },
        _ => HostDispatch::ProtocolMismatch(seq),
    }
}

/// What the host's reader does with one decoded message.
#[derive(Debug, PartialEq, Eq)]
pub enum HostDispatch {
    /// A request from the device, handed to the host's request handler
    /// under its sequence number; the handler's answer must echo it.
    PeerRequest(Sequenced<DeviceRequest>),
    /// A response matched to the pending request with this identifier and
    /// delivered to its initiator.
    Delivered(u32, HostDeliver),
    /// A response whose variant does not fit the request it answers: the
    /// initiator observes a protocol issue.
    ProtocolMismatch(u32),
    /// A response nobody is waiting for: logged and dropped, not an error.
    DroppedUnknown(u32),
    /// A host-originated message arriving back at the host: protocol
    /// misuse by the peer; the message is ignored.
    Misuse,
}

/// The host's answer to a device ping: acknowledged. Refresh-data
/// requests are answered by the upper layer's data dispatcher instead.
pub fn answer_ping() -> (r: HostResponse)
    ensures
        r == HostResponse::Ping(Ok::<(), TransError>(())),
{
    HostResponse::Ping(Ok(()))
}

/// The host endpoint before the device has connected.
pub struct DeviceDisconnected {}

/// The host endpoint while the device is connected: its even sequence
/// counter and the table of requests awaiting responses.
pub struct DeviceConnected {
    pub seq: SeqCounter,
    pub pending: CorrelationTable<ExpectedDevice>,
}

/// The host's stream endpoint; the type parameter is its connection
/// state, so operations that need a connected device exist only on the
/// connected form.
#[derive(Debug, PartialEq, Eq)]
pub struct HostTcpTransport<State> {
    pub state: State,
}

impl HostTcpTransport<DeviceDisconnected> {
    /// A host endpoint with no device connected. The request handler the
    /// upper layer serves device requests with stays with the driver.
    pub fn new() -> Self {
        HostTcpTransport::<DeviceDisconnected> { state: DeviceDisconnected {} }
    }

    /// Enter the connected state once the driver's stream to the device
    /// is up: a fresh even sequence counter and an empty correlation
    /// table.
    pub fn establish(self) -> (r: HostTcpTransport<DeviceConnected>)
        ensures
            r.state.seq.spec_next() == 0,
            r.state.pending@ == Seq::<(u32, ExpectedDevice)>::empty(),
            r.state.pending.wf(),
    {
        HostTcpTransport::<DeviceConnected> {
            state: DeviceConnected { seq: SeqCounter::new_host(), pending: CorrelationTable::new() },
        }
    }
}

impl Default for HostTcpTransport<DeviceDisconnected> {
    /// A host endpoint with no device connected.
    fn default() -> Self {
        HostTcpTransport::new()
    }
}

impl HostTcpTransport<DeviceConnected> {
    /// Start a request: allocate the next even sequence number, record
    /// which response is awaited under it, and frame the message for the
    /// writer queue. A stale entry under a wrapped-around identifier is
    /// overwritten; the timeout regime reclaims entries long before the
    /// counter can come around.
    fn begin(&mut self, request: HostRequest, expected: ExpectedDevice) -> (r: (u32, Message))
        requires
            old(self).state.pending.wf(),
        ensures
            r.0 == old(self).state.seq.spec_next(),
            final(self).state.seq.spec_next() == crate::ids::step_id(r.0, 2),
            r.1.seq_num == r.0,
            r.1.kind == MessageKind::HostRequest(request),
            final(self).state.pending.wf(),
            spec_contains_id(final(self).state.pending@, r.0),
            !spec_contains_id(old(self).state.pending@, r.0) ==> final(self).state.pending@ == old(
                self).state.pending@.push((r.0, expected)),
            forall|k: u32|
                k != r.0 ==> (spec_contains_id(final(self).state.pending@, k) <==> spec_contains_id(
                    old(self).state.pending@,
                    k,
                )),
    {
        let id = self.state.seq.allocate();
        let _ = self.state.pending.remove(id);
        let ghost mid = self.state.pending@;
        self.state.pending.insert(id, expected);
        proof {
            crate::correlate::lemma_push_preserves_other_ids(mid, id, expected);
        }
        (id, Message { seq_num: id, kind: MessageKind::HostRequest(request) })
    }

    /// Start a `SetState` request: push a new display state to the device.
    pub fn begin_set_state(&mut self, state: MemoriState) -> (r: (u32, Message))
        requires
            old(self).state.pending.wf(),
        ensures
            r.0 == old(self).state.seq.spec_next(),
            r.1.seq_num == r.0,
            r.1.kind == MessageKind::HostRequest(HostRequest::SetState(state)),
            final(self).state.pending.wf(),
            spec_contains_id(final(self).state.pending@, r.0),
            !spec_contains_id(old(self).state.pending@, r.0) ==> final(self).state.pending@ == old(
                self).state.pending@.push((r.0, ExpectedDevice::SetState)),
    {
        self.begin(HostRequest::SetState(state), ExpectedDevice::SetState)
    }

    /// Start a `GetWidget` request for one widget's data.
    pub fn begin_get_widget(&mut self, id: WidgetId) -> (r: (u32, Message))
        requires
            old(self).state.pending.wf(),
        ensures
            r.0 == old(self).state.seq.spec_next(),
            r.1.seq_num == r.0,
            r.1.kind == MessageKind::HostRequest(HostRequest::GetWidget(id)),
            final(self).state.pending.wf(),
            spec_contains_id(final(self).state.pending@, r.0),
            !spec_contains_id(old(self).state.pending@, r.0) ==> final(self).state.pending@ == old(
                self).state.pending@.push((r.0, ExpectedDevice::WidgetGet)),
    {
        self.begin(HostRequest::GetWidget(id), ExpectedDevice::WidgetGet)
    }

    /// Start a `GetBatteryLevel` request.
    pub fn begin_get_battery_level(&mut self) -> (r: (u32, Message))
        requires
            old(self).state.pending.wf(),
        ensures
            r.0 == old(self).state.seq.spec_next(),
            r.1.seq_num == r.0,
            r.1.kind == MessageKind::HostRequest(HostRequest::GetBatteryLevel),
            final(self).state.pending.wf(),
            spec_contains_id(final(self).state.pending@, r.0),
            !spec_contains_id(old(self).state.pending@, r.0) ==> final(self).state.pending@ == old(
                self).state.pending@.push((r.0, ExpectedDevice::BatteryLevel)),
    {
        self.begin(HostRequest::GetBatteryLevel, ExpectedDevice::BatteryLevel)
    }

    /// Start a `SetConfig` request.
    pub fn begin_set_device_config(&mut self, config: DeviceConfig) -> (r: (u32, Message))
        requires
            old(self).state.pending.wf(),
        ensures
            r.0 == old(self).state.seq.spec_next(),
            r.1.seq_num == r.0,
            r.1.kind == MessageKind::HostRequest(HostRequest::SetConfig(config)),
            final(self).state.pending.wf(),
            spec_contains_id(final(self).state.pending@, r.0),
            !spec_contains_id(old(self).state.pending@, r.0) ==> final(self).state.pending@ == old(
                self).state.pending@.push((r.0, ExpectedDevice::ConfigSet)),
    {
        self.begin(HostRequest::SetConfig(config), ExpectedDevice::ConfigSet)
    }

    /// Start a ping toward the device.
    pub fn begin_ping(&mut self) -> (r: (u32, Message))
        requires
            old(self).state.pending.wf(),
        ensures
            r.0 == old(self).state.seq.spec_next(),
            r.1.seq_num == r.0,
            r.1.kind == MessageKind::HostRequest(HostRequest::Ping),
            final(self).state.pending.wf(),
            spec_contains_id(final(self).state.pending@, r.0),
            !spec_contains_id(old(self).state.pending@, r.0) ==> final(self).state.pending@ == old(
                self).state.pending@.push((r.0, ExpectedDevice::Pong)),
    {
        self.begin(HostRequest::Ping, ExpectedDevice::Pong)
    }

    /// Dispatch one message read off the stream.
    ///
    /// A device request is handed on under its sequence number. A device
    /// response claims the pending entry with its identifier, if one
    /// exists — the entry is removed, so a second response with the same
    /// identifier finds nothing and is dropped — and reaches its
    /// initiator if its variant answers the request, or surfaces as a
    /// protocol issue if not. Other pending requests are untouched.
    /// Host-originated messages are misuse and are ignored.
    pub fn handle_message(&mut self, m: Message) -> (r: HostDispatch)
        requires
            old(self).state.pending.wf(),
        ensures
            final(self).state.pending.wf(),
            final(self).state.seq == old(self).state.seq,
            match m.kind {
                MessageKind::DeviceRequest(req) => r == HostDispatch::PeerRequest(
                    Sequenced { seq_num: m.seq_num, msg_kind: req },
                ) && *final(self) == *old(self),
                MessageKind::DeviceResponse(resp) => {
                    if spec_contains_id(old(self).state.pending@, m.seq_num) {
                        &&& !spec_contains_id(final(self).state.pending@, m.seq_num)
                        &&& forall|k: u32|
                            k != m.seq_num ==> (spec_contains_id(final(self).state.pending@, k)
                                <==> spec_contains_id(old(self).state.pending@, k))
                        &&& forall|i: int|
                            0 <= i < old(self).state.pending@.len() && old(
                                self).state.pending@[i].0 == m.seq_num ==> r == spec_resolve(
                                m.seq_num,
                                old(self).state.pending@[i].1,
                                resp,
                            )
                    } else {
                        r == HostDispatch::DroppedUnknown(m.seq_num) && final(
                            self).state.pending@ == old(self).state.pending@
                    }
                },
                _ => r == HostDispatch::Misuse && *final(self) == *old(self),
            },
    {
        match m.kind {
            MessageKind::DeviceRequest(req) => HostDispatch::PeerRequest(
                Sequenced { seq_num: m.seq_num, msg_kind: req },
            ),
            MessageKind::DeviceResponse(resp) => {
                match self.state.pending.remove(m.seq_num) {
                    Some(expected) => match (expected, resp) {
                        (ExpectedDevice::WidgetGet, DeviceResponse::WidgetGet(res)) => {
                            HostDispatch::Delivered(m.seq_num, HostDeliver::Widget(res))
                        },
                        (ExpectedDevice::SetState, DeviceResponse::SetState(res)) => {
                            HostDispatch::Delivered(m.seq_num, HostDeliver::SetState(res))
                        },
                        (ExpectedDevice::ConfigSet, DeviceResponse::ConfigSet(res)) => {
                            HostDispatch::Delivered(m.seq_num, HostDeliver::Config(res))
                        },
                        (ExpectedDevice::BatteryLevel, DeviceResponse::BatteryLevel(level)) => {
                            HostDispatch::Delivered(m.seq_num, HostDeliver::Battery(level))
                        },
                        (ExpectedDevice::Pong, DeviceResponse::Pong) => {
                            HostDispatch::Delivered(m.seq_num, HostDeliver::Pong)
                        },
                        _ => HostDispatch::ProtocolMismatch(m.seq_num),
                    },
                    None => HostDispatch::DroppedUnknown(m.seq_num),
                }
            },
            MessageKind::HostRequest(_) => HostDispatch::Misuse,
            MessageKind::HostResponse(_) => HostDispatch::Misuse,
        }
    }

    /// Abort the request with this identifier because its frame could not
    /// be written to the wire: its entry leaves the table — the waiting
    /// initiator fails promptly with the returned hard error instead of
    /// hanging until the timeout — and every other pending request is
    /// untouched.
    pub fn on_write_failure(&mut self, id: u32) -> (r: TransError)
        requires
            old(self).state.pending.wf(),
        ensures
            r == TransError::ProtocolIssue,
            final(self).state.pending.wf(),
            final(self).state.seq == old(self).state.seq,
            !spec_contains_id(final(self).state.pending@, id),
            forall|k: u32|
                k != id ==> (spec_contains_id(final(self).state.pending@, k) <==> spec_contains_id(
                    old(self).state.pending@,
                    k,
                )),
    {
        let _ = self.state.pending.remove(id);
        TransError::ProtocolIssue
    }

    /// Give up on the request with this identifier: its entry leaves the
    /// table — a late response will find nothing and be dropped — and the
    /// initiator observes the returned timeout error.
    pub fn on_timeout(&mut self, id: u32) -> (r: TransError)
        requires
            old(self).state.pending.wf(),
        ensures
            r == TransError::Timeout,
            final(self).state.pending.wf(),
            final(self).state.seq == old(self).state.seq,
            !spec_contains_id(final(self).state.pending@, id),
            forall|k: u32|
                k != id ==> (spec_contains_id(final(self).state.pending@, k) <==> spec_contains_id(
                    old(self).state.pending@,
                    k,
                )),
    {
        let _ = self.state.pending.remove(id);
        TransError::Timeout
    }

    /// Wrap the request handler's answer for the writer queue, echoing the
    /// device request's sequence number.
    pub fn frame_response(&self, resp: Sequenced<HostResponse>) -> (r: Message)
        ensures
            r == (Message {
                seq_num: resp.seq_num,
                kind: MessageKind::HostResponse(resp.msg_kind),
            }),
    {
        Message { seq_num: resp.seq_num, kind: MessageKind::HostResponse(resp.msg_kind) }
    }

    /// Leave the connected state. The driver aborts its tasks; dropping
    /// the correlation table fails every still-pending request with a
    /// transport error on the driver's side.
    pub fn disconnect(self) -> HostTcpTransport<DeviceDisconnected> {
        HostTcpTransport::<DeviceDisconnected> { state: DeviceDisconnected {} }
    }
}

} // verus!
