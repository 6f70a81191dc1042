//! The device side of the stream link.
//!
//! The socket, its reader and writer tasks, and the channels between them
//! live with the driver around this library. What stands here is the part
//! that decides: sequence-number allocation, the correlation table, the
//! framing of outgoing requests, and the dispatch of every incoming
//! message.

use crate::correlate::{spec_contains_id, CorrelationTable};
use crate::errors::{TransError, TransResult};
use crate::ids::SeqCounter;
use crate::stream::{
    DeviceRequest, DeviceResponse, HostRequest, HostResponse, Message, MessageKind, Sequenced,
};
use crate::widgets::{MemoriWidget, WidgetId};
use vstd::prelude::*;

verus! {

/// Which host response a pending device request awaits.
#[derive(Clone, Copy, Debug, PartialEq, Eq, Structural)]
pub enum ExpectedHost {
    RefreshData,
    Ping,
}

/// A response delivered to a waiting device-side initiator.
#[derive(Debug, PartialEq, Eq)]
pub enum DeviceDeliver {
    Refresh(TransResult<MemoriWidget>),
    Ping(TransResult<()>),
}

/// Exactly how a host response resolves against the awaited variant:
/// delivery when it answers what the request asked, a protocol issue
/// otherwise.
pub open spec fn spec_resolve(seq: u32, expected: ExpectedHost, resp: HostResponse) -> DeviceDispatch {
    match (expected, resp) {
        (ExpectedHost::RefreshData, HostResponse::RefreshData(res)) => {
            DeviceDispatch::Delivered(seq, DeviceDeliver::Refresh(res))
        },
        (ExpectedHost::Ping, HostResponse::Ping(res)) => {
            DeviceDispatch::Delivered(seq, DeviceDeliver::Ping(res))
        },
        _ => DeviceDispatch::ProtocolMismatch(seq),
    }
}

/// What the device's reader does with one decoded message.
#[derive(Debug, PartialEq, Eq)]
pub enum DeviceDispatch {
    /// A request from the host, handed to the command handler under its
    /// sequence number; the handler's answer must echo it.
    PeerRequest(Sequenced<HostRequest>),
    /// A response matched to the pending request with this identifier and
    /// delivered to its initiator.
    Delivered(u32, DeviceDeliver),
    /// A response whose variant does not fit the request it answers: the
    /// initiator observes a protocol issue.
    ProtocolMismatch(u32),
    /// A response nobody is waiting for: logged and dropped, not an error.
    DroppedUnknown(u32),
    /// A device-originated message arriving at the device: protocol
    /// misuse by the peer; the message is ignored.
    Misuse,
}

/// The device endpoint before the host has connected.
pub struct HostDisconnected {}

/// The device endpoint while the host is connected: its odd sequence
/// counter and the table of requests awaiting responses.
pub struct HostConnected {
    pub seq: SeqCounter,
    pub pending: CorrelationTable<ExpectedHost>,
}

/// The device's stream endpoint; the type parameter is its connection
/// state, so operations that need a connected host exist only on the
/// connected form.
#[derive(Debug, PartialEq, Eq)]
pub struct DeviceTcpTransport<State> {
    pub state: State,
}

impl Default for DeviceTcpTransport<HostDisconnected> {
    /// A device endpoint with no host connected.
    fn default() -> Self {
        DeviceTcpTransport::<HostDisconnected> { state: HostDisconnected {} }
    }
}

impl DeviceTcpTransport<HostDisconnected> {
    /// Enter the connected state once the driver has accepted the host's
    /// stream: a fresh odd sequence counter and an empty correlation
    /// table.
    pub fn establish(self) -> (r: DeviceTcpTransport<HostConnected>)
        ensures
            r.state.seq.spec_next() == 1,
            r.state.pending@ == Seq::<(u32, ExpectedHost)>::empty(),
            r.state.pending.wf(),
    {
        DeviceTcpTransport::<HostConnected> {
            state: HostConnected { seq: SeqCounter::new_device(), pending: CorrelationTable::new() },
        }
    }
}

impl DeviceTcpTransport<HostConnected> {
    /// Start a request: allocate the next odd sequence number, record
    /// which response is awaited under it, and frame the message for the
    /// writer queue. An identifier can already be pending only after the
    /// counter has wrapped all the way around with a request still
    /// outstanding; the stale entry is overwritten, as the timeout regime
    /// would have reclaimed it long before.
    fn begin(&mut self, request: DeviceRequest, expected: ExpectedHost) -> (r: (u32, Message))
        requires
            old(self).state.pending.wf(),
        ensures
            r.0 == old(self).state.seq.spec_next(),
            final(self).state.seq.spec_next() == crate::ids::step_id(r.0, 2),
            r.1 == (Message { seq_num: r.0, kind: MessageKind::DeviceRequest(request) }),
            final(self).state.pending.wf(),
            spec_contains_id(final(self).state.pending@, r.0),
            !spec_contains_id(old(self).state.pending@, r.0) ==> final(self).state.pending@ == old(
                self).state.pending@.push((r.0, expected)),
            forall|k: u32|
                k != r.0 ==> (spec_contains_id(final(self).state.pending@, k) <==> spec_contains_id(
                    old(self).state.pending@,
                    k,
                )),
    {
        let id = self.state.seq.allocate();
        let _ = self.state.pending.remove(id);
        let ghost mid = self.state.pending@;
        self.state.pending.insert(id, expected);
        proof {
            crate::correlate::lemma_push_preserves_other_ids(mid, id, expected);
        }
        (id, Message { seq_num: id, kind: MessageKind::DeviceRequest(request) })
    }

    /// Start a `RefreshData` request toward the host.
    pub fn begin_refresh_data(&mut self, widget_id: WidgetId) -> (r: (u32, Message))
        requires
            old(self).state.pending.wf(),
        ensures
            r.0 == old(self).state.seq.spec_next(),
            final(self).state.seq.spec_next() == crate::ids::step_id(r.0, 2),
            r.1 == (Message {
                seq_num: r.0,
                kind: MessageKind::DeviceRequest(DeviceRequest::RefreshData(widget_id)),
            }),
            final(self).state.pending.wf(),
            spec_contains_id(final(self).state.pending@, r.0),
            !spec_contains_id(old(self).state.pending@, r.0) ==> final(self).state.pending@ == old(
                self).state.pending@.push((r.0, ExpectedHost::RefreshData)),
    {
        self.begin(DeviceRequest::RefreshData(widget_id), ExpectedHost::RefreshData)
    }

    /// Start a ping toward the host.
    pub fn begin_ping(&mut self) -> (r: (u32, Message))
        requires
            old(self).state.pending.wf(),
        ensures
            r.0 == old(self).state.seq.spec_next(),
            final(self).state.seq.spec_next() == crate::ids::step_id(r.0, 2),
            r.1 == (Message { seq_num: r.0, kind: MessageKind::DeviceRequest(DeviceRequest::Ping) }),
            final(self).state.pending.wf(),
            spec_contains_id(final(self).state.pending@, r.0),
            !spec_contains_id(old(self).state.pending@, r.0) ==> final(self).state.pending@ == old(
                self).state.pending@.push((r.0, ExpectedHost::Ping)),
    {
        self.begin(DeviceRequest::Ping, ExpectedHost::Ping)
    }

    /// Dispatch one message read off the stream.
    ///
    /// A host request is handed on under its sequence number. A host
    /// response is matched against the correlation table: the pending
    /// entry with its identifier, if there is one, is claimed and removed
    /// — so a second response with the same identifier finds nothing and
    /// is dropped — and the response reaches its initiator if its variant
    /// answers the request, or surfaces as a protocol issue if not. Other
    /// pending requests are untouched. Device-originated messages are
    /// misuse and are ignored.
    pub fn handle_message(&mut self, m: Message) -> (r: DeviceDispatch)
        requires
            old(self).state.pending.wf(),
        ensures
            final(self).state.pending.wf(),
            final(self).state.seq == old(self).state.seq,
            match m.kind {
                MessageKind::HostRequest(req) => r == DeviceDispatch::PeerRequest(
                    Sequenced { seq_num: m.seq_num, msg_kind: req },
                ) && *final(self) == *old(self),
                MessageKind::HostResponse(resp) => {
                    if spec_contains_id(old(self).state.pending@, m.seq_num) {
                        &&& !spec_contains_id(final(self).state.pending@, m.seq_num)
                        &&& forall|k: u32|
                            k != m.seq_num ==> (spec_contains_id(final(self).state.pending@, k)
                                <==> spec_contains_id(old(self).state.pending@, k))
                        &&& forall|i: int|
                            0 <= i < old(self).state.pending@.len() && old(
                                self).state.pending@[i].0 == m.seq_num ==> r == spec_resolve(
                                m.seq_num,
                                old(self).state.pending@[i].1,
                                resp,
                            )
                    } else {
                        r == DeviceDispatch::DroppedUnknown(m.seq_num) && final(
                            self).state.pending@ == old(self).state.pending@
                    }
                },
                _ => r == DeviceDispatch::Misuse && *final(self) == *old(self),
            },
    {
        match m.kind {
            MessageKind::HostRequest(req) => DeviceDispatch::PeerRequest(
                Sequenced { seq_num: m.seq_num, msg_kind: req },
            ),
            MessageKind::HostResponse(resp) => {
                match self.state.pending.remove(m.seq_num) {
                    Some(expected) => match (expected, resp) {
                        (ExpectedHost::RefreshData, HostResponse::RefreshData(res)) => {
                            DeviceDispatch::Delivered(m.seq_num, DeviceDeliver::Refresh(res))
                        },
                        (ExpectedHost::Ping, HostResponse::Ping(res)) => {
                            DeviceDispatch::Delivered(m.seq_num, DeviceDeliver::Ping(res))
                        },
                        _ => DeviceDispatch::ProtocolMismatch(m.seq_num),
                    },
                    None => DeviceDispatch::DroppedUnknown(m.seq_num),
                }
            },
            MessageKind::DeviceRequest(_) => DeviceDispatch::Misuse,
            MessageKind::DeviceResponse(_) => DeviceDispatch::Misuse,
        }
    }

    /// Abort the request with this identifier because its frame could not
    /// be written to the wire: its entry leaves the table — the waiting
    /// initiator fails promptly with the returned hard error instead of
    /// hanging until the timeout — and every other pending request is
    /// untouched.
    pub fn on_write_failure(&mut self, id: u32) -> (r: TransError)
        requires
            old(self).state.pending.wf(),
        ensures
            r == TransError::ProtocolIssue,
            final(self).state.pending.wf(),
            final(self).state.seq == old(self).state.seq,
            !spec_contains_id(final(self).state.pending@, id),
            forall|k: u32|
                k != id ==> (spec_contains_id(final(self).state.pending@, k) <==> spec_contains_id(
                    old(self).state.pending@,
                    k,
                )),
    {
        let _ = self.state.pending.remove(id);
        TransError::ProtocolIssue
    }

    /// Give up on the request with this identifier: its entry leaves the
    /// table — afterwards no entry for it remains, and a late response
    /// will be dropped — and the initiator observes the returned timeout
    /// error.
    pub fn on_timeout(&mut self, id: u32) -> (r: TransError)
        requires
            old(self).state.pending.wf(),
        ensures
            r == TransError::Timeout,
            final(self).state.pending.wf(),
            final(self).state.seq == old(self).state.seq,
            !spec_contains_id(final(self).state.pending@, id),
            forall|k: u32|
                k != id ==> (spec_contains_id(final(self).state.pending@, k) <==> spec_contains_id(
                    old(self).state.pending@,
                    k,
                )),
    {
        let _ = self.state.pending.remove(id);
        TransError::Timeout
    }

    /// Wrap a handler's answer for the writer queue, echoing the request's
    /// sequence number.
    pub fn frame_response(&self, resp: Sequenced<DeviceResponse>) -> (r: Message)
        ensures
            r == (Message {
                seq_num: resp.seq_num,
                kind: MessageKind::DeviceResponse(resp.msg_kind),
            }),
    {
        Message { seq_num: resp.seq_num, kind: MessageKind::DeviceResponse(resp.msg_kind) }
    }

    /// Leave the connected state. The driver aborts its reader, writer
    /// and responder tasks; dropping the correlation table here fails
    /// every still-pending request with a transport error on the driver's
    /// side.
    pub fn disconnect(self) -> DeviceTcpTransport<HostDisconnected> {
        DeviceTcpTransport::<HostDisconnected> { state: HostDisconnected {} }
    }
}

} // verus!
