//! The stream link's message model and length-prefixed framing.
//!
//! A frame is a four-byte big-endian payload length followed by that many
//! bytes of encoded [`Message`]. A response always echoes its request's
//! sequence number; requests sent from the device carry odd sequence
//! numbers and requests sent from the host carry even ones.

use crate::codec::{
    dec_config, dec_result_unit, dec_result_widget, dec_state, dec_widget_id, enc_config, enc_result_unit, enc_result_widget, enc_state, enc_widget_id,
    lemma_config_round_trip, lemma_result_unit_round_trip, lemma_result_widget_round_trip,
    lemma_state_round_trip, lemma_widget_id_round_trip, spec_dec_config, spec_dec_result_unit,
    spec_dec_result_widget, spec_dec_state, spec_dec_widget_id, spec_enc_config,
    spec_enc_result_unit, spec_enc_result_widget, spec_enc_state, spec_enc_widget_id,
    view_of_result_widget,
};
use crate::config::DeviceConfig;
use crate::errors::TransError;
use crate::state::{MemoriState, MemoriStateV};
use crate::widgets::{MemoriWidget, MemoriWidgetV, WidgetId};
use crate::wire::{
    dec_u32, dec_u8, decodes_to, enc_u32, enc_u8, lemma_u32_round_trip, lemma_u8_round_trip,
    spec_dec_u32, spec_dec_u8, spec_enc_u32, spec_enc_u8,
};
use crate::MAX_STREAM_FRAME;
use vstd::prelude::*;
use vstd::slice::slice_index_get;

verus! {

// ---------------------------------------------------------------------------
// Message families
// ---------------------------------------------------------------------------

/// Requests a device can send.
#[derive(Clone, Copy, Debug, PartialEq, Eq, Structural)]
pub enum DeviceRequest {
    RefreshData(WidgetId),
    Ping,
}

impl View for DeviceRequest {
    type V = DeviceRequest;

    open spec fn view(&self) -> DeviceRequest {
        *self
    }
}

/// Responses a device can receive.
#[derive(Debug, PartialEq, Eq)]
pub enum HostResponse {
    RefreshData(Result<MemoriWidget, TransError>),
    Ping(Result<(), TransError>),
}

/// Mathematical image of a [`HostResponse`].
pub enum HostResponseV {
    RefreshData(Result<MemoriWidgetV, TransError>),
    Ping(Result<(), TransError>),
}

impl View for HostResponse {
    type V = HostResponseV;

    open spec fn view(&self) -> HostResponseV {
        match self {
            HostResponse::RefreshData(r) => HostResponseV::RefreshData(view_of_result_widget(*r)),
            HostResponse::Ping(r) => HostResponseV::Ping(*r),
        }
    }
}

/// Requests a host can send.
#[derive(Debug, PartialEq, Eq)]
pub enum HostRequest {
    GetWidget(WidgetId),
    SetState(MemoriState),
    SetConfig(DeviceConfig),
    GetBatteryLevel,
    Ping,
}

/// Mathematical image of a [`HostRequest`].
pub enum HostRequestV {
    GetWidget(WidgetId),
    SetState(MemoriStateV),
    SetConfig(DeviceConfig),
    GetBatteryLevel,
    Ping,
}

impl View for HostRequest {
    type V = HostRequestV;

    open spec fn view(&self) -> HostRequestV {
        match self {
            HostRequest::GetWidget(id) => HostRequestV::GetWidget(*id),
            HostRequest::SetState(st) => HostRequestV::SetState(st@),
            HostRequest::SetConfig(c) => HostRequestV::SetConfig(*c),
            HostRequest::GetBatteryLevel => HostRequestV::GetBatteryLevel,
            HostRequest::Ping => HostRequestV::Ping,
        }
    }
}

/// Responses a host can receive.
#[derive(Debug, PartialEq, Eq)]
pub enum DeviceResponse {
    WidgetGet(Result<MemoriWidget, TransError>),
    SetState(Result<(), TransError>),
    ConfigSet(Result<(), TransError>),
    BatteryLevel(u8),
    Pong,
    /// General success message for any updates sent by the host.
    Success,
}

/// Mathematical image of a [`DeviceResponse`].
pub enum DeviceResponseV {
    WidgetGet(Result<MemoriWidgetV, TransError>),
    SetState(Result<(), TransError>),
    ConfigSet(Result<(), TransError>),
    BatteryLevel(u8),
    Pong,
    Success,
}

impl View for DeviceResponse {
    type V = DeviceResponseV;

    open spec fn view(&self) -> DeviceResponseV {
        match self {
            DeviceResponse::WidgetGet(r) => DeviceResponseV::WidgetGet(view_of_result_widget(*r)),
            DeviceResponse::SetState(r) => DeviceResponseV::SetState(*r),
            DeviceResponse::ConfigSet(r) => DeviceResponseV::ConfigSet(*r),
            DeviceResponse::BatteryLevel(level) => DeviceResponseV::BatteryLevel(*level),
            DeviceResponse::Pong => DeviceResponseV::Pong,
            DeviceResponse::Success => DeviceResponseV::Success,
        }
    }
}

/// One of the four message families.
#[derive(Debug, PartialEq, Eq)]
pub enum MessageKind {
    DeviceRequest(DeviceRequest),
    DeviceResponse(DeviceResponse),
    HostRequest(HostRequest),
    HostResponse(HostResponse),
}

/// Mathematical image of a [`MessageKind`].
pub enum MessageKindV {
    DeviceRequest(DeviceRequest),
    DeviceResponse(DeviceResponseV),
    HostRequest(HostRequestV),
    HostResponse(HostResponseV),
}

impl View for MessageKind {
    type V = MessageKindV;

    open spec fn view(&self) -> MessageKindV {
        match self {
            MessageKind::DeviceRequest(r) => MessageKindV::DeviceRequest(*r),
            MessageKind::DeviceResponse(r) => MessageKindV::DeviceResponse(r@),
            MessageKind::HostRequest(r) => MessageKindV::HostRequest(r@),
            MessageKind::HostResponse(r) => MessageKindV::HostResponse(r@),
        }
    }
}

/// One message on the stream link.
#[derive(Debug, PartialEq, Eq)]
pub struct Message {
    pub seq_num: u32,
    pub kind: MessageKind,
}

/// Mathematical image of a [`Message`].
pub struct MessageV {
    pub seq_num: u32,
    pub kind: MessageKindV,
}

impl View for Message {
    type V = MessageV;

    open spec fn view(&self) -> MessageV {
        MessageV { seq_num: self.seq_num, kind: self.kind@ }
    }
}

/// A message body paired with the sequence number it travels under.
///
/// A response's sequence number always equals its request's. Requests sent
/// from the device carry odd sequence numbers, requests sent from the host
/// even ones.
#[derive(Debug, PartialEq, Eq)]
pub struct Sequenced<T> {
    pub seq_num: u32,
    pub msg_kind: T,
}

impl<T> Sequenced<T> {
    pub fn new(seq_num: u32, msg_kind: T) -> (r: Self)
        ensures
            r.seq_num == seq_num,
            r.msg_kind == msg_kind,
    {
        Self { seq_num, msg_kind }
    }
}

// ---------------------------------------------------------------------------
// Codecs for the families
// ---------------------------------------------------------------------------

pub open spec fn spec_enc_device_request(v: DeviceRequest) -> Seq<u8> {
    match v {
        DeviceRequest::RefreshData(id) => spec_enc_u8(0) + spec_enc_widget_id(id),
        DeviceRequest::Ping => spec_enc_u8(1),
    }
}

pub open spec fn spec_dec_device_request(s: Seq<u8>) -> Option<(DeviceRequest, Seq<u8>)> {
    match spec_dec_u8(s) {
        Some(tp) => {
            if tp.0 == 0 {
                match spec_dec_widget_id(tp.1) {
                    Some(ip) => Some((DeviceRequest::RefreshData(ip.0), ip.1)),
                    None => None,
                }
            } else if tp.0 == 1 {
                Some((DeviceRequest::Ping, tp.1))
            } else {
                None
            }
        },
        None => None,
    }
}

pub proof fn lemma_device_request_round_trip(v: DeviceRequest, rest: Seq<u8>)
    ensures
        spec_dec_device_request(spec_enc_device_request(v) + rest) == Some((v, rest)),
{
    match v {
        DeviceRequest::RefreshData(id) => {
            assert(spec_enc_device_request(v) + rest =~= spec_enc_u8(0) + (spec_enc_widget_id(id)
                + rest));
            lemma_u8_round_trip(0, spec_enc_widget_id(id) + rest);
            lemma_widget_id_round_trip(id, rest);
        },
        DeviceRequest::Ping => lemma_u8_round_trip(1, rest),
    }
}

pub fn enc_device_request(out: &mut Vec<u8>, v: &DeviceRequest)
    ensures
        final(out)@ == old(out)@ + spec_enc_device_request(*v),
{
    match v {
        DeviceRequest::RefreshData(id) => {
            enc_u8(out, 0);
            enc_widget_id(out, *id);
            assert(out@ =~= old(out)@ + spec_enc_device_request(*v));
        },
        DeviceRequest::Ping => enc_u8(out, 1),
    }
}

pub fn dec_device_request(s: &[u8], pos: usize) -> (r: Option<(DeviceRequest, usize)>)
    requires
        pos <= s.len(),
    ensures
        decodes_to::<DeviceRequest>(
            s@,
            pos as int,
            spec_dec_device_request(s@.skip(pos as int)),
            r,
        ),
{
    match dec_u8(s, pos) {
        Some((tag, p)) => {
            if tag == 0 {
                match dec_widget_id(s, p) {
                    Some((id, q)) => Some((DeviceRequest::RefreshData(id), q)),
                    None => None,
                }
            } else if tag == 1 {
                Some((DeviceRequest::Ping, p))
            } else {
                None
            }
        },
        None => None,
    }
}

pub open spec fn spec_enc_host_response(v: HostResponse) -> Seq<u8> {
    match v {
        HostResponse::RefreshData(r) => spec_enc_u8(0) + spec_enc_result_widget(r),
        HostResponse::Ping(r) => spec_enc_u8(1) + spec_enc_result_unit(r),
    }
}

pub open spec fn spec_dec_host_response(s: Seq<u8>) -> Option<(HostResponseV, Seq<u8>)> {
    match spec_dec_u8(s) {
        Some(tp) => {
            if tp.0 == 0 {
                match spec_dec_result_widget(tp.1) {
                    Some(rp) => Some((HostResponseV::RefreshData(rp.0), rp.1)),
                    None => None,
                }
            } else if tp.0 == 1 {
                match spec_dec_result_unit(tp.1) {
                    Some(rp) => Some((HostResponseV::Ping(rp.0), rp.1)),
                    None => None,
                }
            } else {
                None
            }
        },
        None => None,
    }
}

pub proof fn lemma_host_response_round_trip(v: HostResponse, rest: Seq<u8>)
    ensures
        spec_dec_host_response(spec_enc_host_response(v) + rest) == Some((v@, rest)),
{
    match v {
        HostResponse::RefreshData(r) => {
            assert(spec_enc_host_response(v) + rest =~= spec_enc_u8(0) + (spec_enc_result_widget(r)
                + rest));
            lemma_u8_round_trip(0, spec_enc_result_widget(r) + rest);
            lemma_result_widget_round_trip(r, rest);
        },
        HostResponse::Ping(r) => {
            assert(spec_enc_host_response(v) + rest =~= spec_enc_u8(1) + (spec_enc_result_unit(r)
                + rest));
            lemma_u8_round_trip(1, spec_enc_result_unit(r) + rest);
            lemma_result_unit_round_trip(r, rest);
        },
    }
}

pub fn enc_host_response(out: &mut Vec<u8>, v: &HostResponse)
    ensures
        final(out)@ == old(out)@ + spec_enc_host_response(*v),
{
    match v {
        HostResponse::RefreshData(r) => {
            enc_u8(out, 0);
            enc_result_widget(out, r);
        },
        HostResponse::Ping(r) => {
            enc_u8(out, 1);
            enc_result_unit(out, r);
        },
    }
    assert(out@ =~= old(out)@ + spec_enc_host_response(*v));
}

pub fn dec_host_response(s: &[u8], pos: usize) -> (r: Option<(HostResponse, usize)>)
    requires
        pos <= s.len(),
    ensures
        decodes_to::<HostResponse>(s@, pos as int, spec_dec_host_response(s@.skip(pos as int)), r),
{
    match dec_u8(s, pos) {
        Some((tag, p)) => {
            if tag == 0 {
                match dec_result_widget(s, p) {
                    Some((x, q)) => Some((HostResponse::RefreshData(x), q)),
                    None => None,
                }
            } else if tag == 1 {
                match dec_result_unit(s, p) {
                    Some((x, q)) => Some((HostResponse::Ping(x), q)),
                    None => None,
                }
            } else {
                None
            }
        },
        None => None,
    }
}

pub open spec fn spec_enc_host_request(v: HostRequest) -> Seq<u8> {
    match v {
        HostRequest::GetWidget(id) => spec_enc_u8(0) + spec_enc_widget_id(id),
        HostRequest::SetState(st) => spec_enc_u8(1) + spec_enc_state(st),
        HostRequest::SetConfig(c) => spec_enc_u8(2) + spec_enc_config(c),
        HostRequest::GetBatteryLevel => spec_enc_u8(3),
        HostRequest::Ping => spec_enc_u8(4),
    }
}

pub open spec fn spec_dec_host_request(s: Seq<u8>) -> Option<(HostRequestV, Seq<u8>)> {
    match spec_dec_u8(s) {
        Some(tp) => {
            if tp.0 == 0 {
                match spec_dec_widget_id(tp.1) {
                    Some(ip) => Some((HostRequestV::GetWidget(ip.0), ip.1)),
                    None => None,
                }
            } else if tp.0 == 1 {
                match spec_dec_state(tp.1) {
                    Some(sp) => Some((HostRequestV::SetState(sp.0), sp.1)),
                    None => None,
                }
            } else if tp.0 == 2 {
                match spec_dec_config(tp.1) {
                    Some(cp) => Some((HostRequestV::SetConfig(cp.0), cp.1)),
                    None => None,
                }
            } else if tp.0 == 3 {
                Some((HostRequestV::GetBatteryLevel, tp.1))
            } else if tp.0 == 4 {
                Some((HostRequestV::Ping, tp.1))
            } else {
                None
            }
        },
        None => None,
    }
}

pub proof fn lemma_host_request_round_trip(v: HostRequest, rest: Seq<u8>)
    ensures
        spec_dec_host_request(spec_enc_host_request(v) + rest) == Some((v@, rest)),
{
    match v {
        HostRequest::GetWidget(id) => {
            assert(spec_enc_host_request(v) + rest =~= spec_enc_u8(0) + (spec_enc_widget_id(id)
                + rest));
            lemma_u8_round_trip(0, spec_enc_widget_id(id) + rest);
            lemma_widget_id_round_trip(id, rest);
        },
        HostRequest::SetState(st) => {
            assert(spec_enc_host_request(v) + rest =~= spec_enc_u8(1) + (spec_enc_state(st)
                + rest));
            lemma_u8_round_trip(1, spec_enc_state(st) + rest);
            lemma_state_round_trip(st, rest);
        },
        HostRequest::SetConfig(c) => {
            assert(spec_enc_host_request(v) + rest =~= spec_enc_u8(2) + (spec_enc_config(c)
                + rest));
            lemma_u8_round_trip(2, spec_enc_config(c) + rest);
            lemma_config_round_trip(c, rest);
        },
        HostRequest::GetBatteryLevel => lemma_u8_round_trip(3, rest),
        HostRequest::Ping => lemma_u8_round_trip(4, rest),
    }
}

pub fn enc_host_request(out: &mut Vec<u8>, v: &HostRequest)
    ensures
        final(out)@ == old(out)@ + spec_enc_host_request(*v),
{
    match v {
        HostRequest::GetWidget(id) => {
            enc_u8(out, 0);
            enc_widget_id(out, *id);
        },
        HostRequest::SetState(st) => {
            enc_u8(out, 1);
            enc_state(out, st);
        },
        HostRequest::SetConfig(c) => {
            enc_u8(out, 2);
            enc_config(out, *c);
        },
        HostRequest::GetBatteryLevel => enc_u8(out, 3),
        HostRequest::Ping => enc_u8(out, 4),
    }
    assert(out@ =~= old(out)@ + spec_enc_host_request(*v));
}

pub fn dec_host_request(s: &[u8], pos: usize) -> (r: Option<(HostRequest, usize)>)
    requires
        pos <= s.len(),
    ensures
        decodes_to::<HostRequest>(s@, pos as int, spec_dec_host_request(s@.skip(pos as int)), r),
{
    match dec_u8(s, pos) {
        Some((tag, p)) => {
            if tag == 0 {
                match dec_widget_id(s, p) {
                    Some((id, q)) => Some((HostRequest::GetWidget(id), q)),
                    None => None,
                }
            } else if tag == 1 {
                match dec_state(s, p) {
                    Some((st, q)) => Some((HostRequest::SetState(st), q)),
                    None => None,
                }
            } else if tag == 2 {
                match dec_config(s, p) {
                    Some((c, q)) => Some((HostRequest::SetConfig(c), q)),
                    None => None,
                }
            } else if tag == 3 {
                Some((HostRequest::GetBatteryLevel, p))
            } else if tag == 4 {
                Some((HostRequest::Ping, p))
            } else {
                None
            }
        },
        None => None,
    }
}

pub open spec fn spec_enc_device_response(v: DeviceResponse) -> Seq<u8> {
    match v {
        DeviceResponse::WidgetGet(r) => spec_enc_u8(0) + spec_enc_result_widget(r),
        DeviceResponse::SetState(r) => spec_enc_u8(1) + spec_enc_result_unit(r),
        DeviceResponse::ConfigSet(r) => spec_enc_u8(2) + spec_enc_result_unit(r),
        DeviceResponse::BatteryLevel(level) => spec_enc_u8(3) + spec_enc_u8(level),
        DeviceResponse::Pong => spec_enc_u8(4),
        DeviceResponse::Success => spec_enc_u8(5),
    }
}

pub open spec fn spec_dec_device_response(s: Seq<u8>) -> Option<(DeviceResponseV, Seq<u8>)> {
    match spec_dec_u8(s) {
        Some(tp) => {
            if tp.0 == 0 {
                match spec_dec_result_widget(tp.1) {
                    Some(rp) => Some((DeviceResponseV::WidgetGet(rp.0), rp.1)),
                    None => None,
                }
            } else if tp.0 == 1 {
                match spec_dec_result_unit(tp.1) {
                    Some(rp) => Some((DeviceResponseV::SetState(rp.0), rp.1)),
                    None => None,
                }
            } else if tp.0 == 2 {
                match spec_dec_result_unit(tp.1) {
                    Some(rp) => Some((DeviceResponseV::ConfigSet(rp.0), rp.1)),
                    None => None,
                }
            } else if tp.0 == 3 {
                match spec_dec_u8(tp.1) {
                    Some(lp) => Some((DeviceResponseV::BatteryLevel(lp.0), lp.1)),
                    None => None,
                }
            } else if tp.0 == 4 {
                Some((DeviceResponseV::Pong, tp.1))
            } else if tp.0 == 5 {
                Some((DeviceResponseV::Success, tp.1))
            } else {
                None
            }
        },
        None => None,
    }
}

pub proof fn lemma_device_response_round_trip(v: DeviceResponse, rest: Seq<u8>)
    ensures
        spec_dec_device_response(spec_enc_device_response(v) + rest) == Some((v@, rest)),
{
    match v {
        DeviceResponse::WidgetGet(r) => {
            assert(spec_enc_device_response(v) + rest =~= spec_enc_u8(0) + (
            spec_enc_result_widget(r) + rest));
            lemma_u8_round_trip(0, spec_enc_result_widget(r) + rest);
            lemma_result_widget_round_trip(r, rest);
        },
        DeviceResponse::SetState(r) => {
            assert(spec_enc_device_response(v) + rest =~= spec_enc_u8(1) + (spec_enc_result_unit(r)
                + rest));
            lemma_u8_round_trip(1, spec_enc_result_unit(r) + rest);
            lemma_result_unit_round_trip(r, rest);
        },
        DeviceResponse::ConfigSet(r) => {
            assert(spec_enc_device_response(v) + rest =~= spec_enc_u8(2) + (spec_enc_result_unit(r)
                + rest));
            lemma_u8_round_trip(2, spec_enc_result_unit(r) + rest);
            lemma_result_unit_round_trip(r, rest);
        },
        DeviceResponse::BatteryLevel(level) => {
            assert(spec_enc_device_response(v) + rest =~= spec_enc_u8(3) + (spec_enc_u8(level)
                + rest));
            lemma_u8_round_trip(3, spec_enc_u8(level) + rest);
            lemma_u8_round_trip(level, rest);
        },
        DeviceResponse::Pong => lemma_u8_round_trip(4, rest),
        DeviceResponse::Success => lemma_u8_round_trip(5, rest),
    }
}

pub fn enc_device_response(out: &mut Vec<u8>, v: &DeviceResponse)
    ensures
        final(out)@ == old(out)@ + spec_enc_device_response(*v),
{
    match v {
        DeviceResponse::WidgetGet(r) => {
            enc_u8(out, 0);
            enc_result_widget(out, r);
        },
        DeviceResponse::SetState(r) => {
            enc_u8(out, 1);
            enc_result_unit(out, r);
        },
        DeviceResponse::ConfigSet(r) => {
            enc_u8(out, 2);
            enc_result_unit(out, r);
        },
        DeviceResponse::BatteryLevel(level) => {
            enc_u8(out, 3);
            enc_u8(out, *level);
        },
        DeviceResponse::Pong => enc_u8(out, 4),
        DeviceResponse::Success => enc_u8(out, 5),
    }
    assert(out@ =~= old(out)@ + spec_enc_device_response(*v));
}

pub fn dec_device_response(s: &[u8], pos: usize) -> (r: Option<(DeviceResponse, usize)>)
    requires
        pos <= s.len(),
    ensures
        decodes_to::<DeviceResponse>(
            s@,
            pos as int,
            spec_dec_device_response(s@.skip(pos as int)),
            r,
        ),
{
    match dec_u8(s, pos) {
        Some((tag, p)) => {
            if tag == 0 {
                match dec_result_widget(s, p) {
                    Some((x, q)) => Some((DeviceResponse::WidgetGet(x), q)),
                    None => None,
                }
            } else if tag == 1 {
                match dec_result_unit(s, p) {
                    Some((x, q)) => Some((DeviceResponse::SetState(x), q)),
                    None => None,
                }
            } else if tag == 2 {
                match dec_result_unit(s, p) {
                    Some((x, q)) => Some((DeviceResponse::ConfigSet(x), q)),
                    None => None,
                }
            } else if tag == 3 {
                match dec_u8(s, p) {
                    Some((level, q)) => Some((DeviceResponse::BatteryLevel(level), q)),
                    None => None,
                }
            } else if tag == 4 {
                Some((DeviceResponse::Pong, p))
            } else if tag == 5 {
                Some((DeviceResponse::Success, p))
            } else {
                None
            }
        },
        None => None,
    }
}

pub open spec fn spec_enc_message_kind(v: MessageKind) -> Seq<u8> {
    match v {
        MessageKind::DeviceRequest(r) => spec_enc_u8(0) + spec_enc_device_request(r),
        MessageKind::DeviceResponse(r) => spec_enc_u8(1) + spec_enc_device_response(r),
        MessageKind::HostRequest(r) => spec_enc_u8(2) + spec_enc_host_request(r),
        MessageKind::HostResponse(r) => spec_enc_u8(3) + spec_enc_host_response(r),
    }
}

pub open spec fn spec_dec_message_kind(s: Seq<u8>) -> Option<(MessageKindV, Seq<u8>)> {
    match spec_dec_u8(s) {
        Some(tp) => {
            if tp.0 == 0 {
                match spec_dec_device_request(tp.1) {
                    Some(rp) => Some((MessageKindV::DeviceRequest(rp.0), rp.1)),
                    None => None,
                }
            } else if tp.0 == 1 {
                match spec_dec_device_response(tp.1) {
                    Some(rp) => Some((MessageKindV::DeviceResponse(rp.0), rp.1)),
                    None => None,
                }
            } else if tp.0 == 2 {
                match spec_dec_host_request(tp.1) {
                    Some(rp) => Some((MessageKindV::HostRequest(rp.0), rp.1)),
                    None => None,
                }
            } else if tp.0 == 3 {
                match spec_dec_host_response(tp.1) {
                    Some(rp) => Some((MessageKindV::HostResponse(rp.0), rp.1)),
                    None => None,
                }
            } else {
                None
            }
        },
        None => None,
    }
}

#[verifier::rlimit(100)]
pub proof fn lemma_message_kind_round_trip(v: MessageKind, rest: Seq<u8>)
    ensures
        spec_dec_message_kind(spec_enc_message_kind(v) + rest) == Some((v@, rest)),
{
    match v {
        MessageKind::DeviceRequest(r) => {
            assert(spec_enc_message_kind(v) + rest =~= spec_enc_u8(0) + (spec_enc_device_request(r)
                + rest));
            lemma_u8_round_trip(0, spec_enc_device_request(r) + rest);
            lemma_device_request_round_trip(r, rest);
        },
        MessageKind::DeviceResponse(r) => {
            assert(spec_enc_message_kind(v) + rest =~= spec_enc_u8(1) + (
            spec_enc_device_response(r) + rest));
            lemma_u8_round_trip(1, spec_enc_device_response(r) + rest);
            lemma_device_response_round_trip(r, rest);
        },
        MessageKind::HostRequest(r) => {
            assert(spec_enc_message_kind(v) + rest =~= spec_enc_u8(2) + (spec_enc_host_request(r)
                + rest));
            lemma_u8_round_trip(2, spec_enc_host_request(r) + rest);
            lemma_host_request_round_trip(r, rest);
        },
        MessageKind::HostResponse(r) => {
            assert(spec_enc_message_kind(v) + rest =~= spec_enc_u8(3) + (spec_enc_host_response(r)
                + rest));
            lemma_u8_round_trip(3, spec_enc_host_response(r) + rest);
            lemma_host_response_round_trip(r, rest);
        },
    }
}

pub fn enc_message_kind(out: &mut Vec<u8>, v: &MessageKind)
    ensures
        final(out)@ == old(out)@ + spec_enc_message_kind(*v),
{
    match v {
        MessageKind::DeviceRequest(r) => {
            enc_u8(out, 0);
            enc_device_request(out, r);
        },
        MessageKind::DeviceResponse(r) => {
            enc_u8(out, 1);
            enc_device_response(out, r);
        },
        MessageKind::HostRequest(r) => {
            enc_u8(out, 2);
            enc_host_request(out, r);
        },
        MessageKind::HostResponse(r) => {
            enc_u8(out, 3);
            enc_host_response(out, r);
        },
    }
    assert(out@ =~= old(out)@ + spec_enc_message_kind(*v));
}

pub fn dec_message_kind(s: &[u8], pos: usize) -> (r: Option<(MessageKind, usize)>)
    requires
        pos <= s.len(),
    ensures
        decodes_to::<MessageKind>(s@, pos as int, spec_dec_message_kind(s@.skip(pos as int)), r),
{
    match dec_u8(s, pos) {
        Some((tag, p)) => {
            if tag == 0 {
                match dec_device_request(s, p) {
                    Some((x, q)) => Some((MessageKind::DeviceRequest(x), q)),
                    None => None,
                }
            } else if tag == 1 {
                match dec_device_response(s, p) {
                    Some((x, q)) => Some((MessageKind::DeviceResponse(x), q)),
                    None => None,
                }
            } else if tag == 2 {
                match dec_host_request(s, p) {
                    Some((x, q)) => Some((MessageKind::HostRequest(x), q)),
                    None => None,
                }
            } else if tag == 3 {
                match dec_host_response(s, p) {
                    Some((x, q)) => Some((MessageKind::HostResponse(x), q)),
                    None => None,
                }
            } else {
                None
            }
        },
        None => None,
    }
}

pub open spec fn spec_enc_message(v: Message) -> Seq<u8> {
    spec_enc_u32(v.seq_num) + spec_enc_message_kind(v.kind)
}

pub open spec fn spec_dec_message(s: Seq<u8>) -> Option<(MessageV, Seq<u8>)> {
    match spec_dec_u32(s) {
        Some(np) => match spec_dec_message_kind(np.1) {
            Some(kp) => Some((MessageV { seq_num: np.0, kind: kp.0 }, kp.1)),
            None => None,
        },
        None => None,
    }
}

pub proof fn lemma_message_round_trip(v: Message, rest: Seq<u8>)
    ensures
        spec_dec_message(spec_enc_message(v) + rest) == Some((v@, rest)),
{
    assert(spec_enc_message(v) + rest =~= spec_enc_u32(v.seq_num) + (spec_enc_message_kind(v.kind)
        + rest));
    lemma_u32_round_trip(v.seq_num, spec_enc_message_kind(v.kind) + rest);
    lemma_message_kind_round_trip(v.kind, rest);
}

pub fn enc_message(out: &mut Vec<u8>, v: &Message)
    ensures
        final(out)@ == old(out)@ + spec_enc_message(*v),
{
    enc_u32(out, v.seq_num);
    enc_message_kind(out, &v.kind);
    assert(out@ =~= old(out)@ + spec_enc_message(*v));
}

pub fn dec_message(s: &[u8], pos: usize) -> (r: Option<(Message, usize)>)
    requires
        pos <= s.len(),
    ensures
        decodes_to::<Message>(s@, pos as int, spec_dec_message(s@.skip(pos as int)), r),
{
    match dec_u32(s, pos) {
        Some((seq_num, p)) => match dec_message_kind(s, p) {
            Some((kind, q)) => Some((Message { seq_num, kind }, q)),
            None => None,
        },
        None => None,
    }
}

// ---------------------------------------------------------------------------
// Length-prefixed framing
// ---------------------------------------------------------------------------

/// The four header bytes of a frame: the payload length, big-endian.
pub open spec fn spec_enc_u32_be(n: u32) -> Seq<u8> {
    seq![
        (n >> 24) as u8,
        ((n >> 16) & 0xff) as u8,
        ((n >> 8) & 0xff) as u8,
        (n & 0xff) as u8,
    ]
}

/// The payload length spelled by four header bytes.
pub open spec fn spec_dec_u32_be(s: Seq<u8>) -> u32
    recommends
        s.len() == 4,
{
    (0x1000000 * (s[0] as u32) + 0x10000 * (s[1] as u32) + 0x100 * (s[2] as u32) + (
    s[3] as u32)) as u32
}

/// Reading the four header bytes back gives the length they were written
/// from.
pub proof fn lemma_u32_be_round_trip(n: u32)
    ensures
        spec_dec_u32_be(spec_enc_u32_be(n)) == n,
{
    let s = spec_enc_u32_be(n);
    assert(s[0] == (n >> 24) as u8);
    assert(s[1] == ((n >> 16) & 0xff) as u8);
    assert(s[2] == ((n >> 8) & 0xff) as u8);
    assert(s[3] == (n & 0xff) as u8);
    assert((0x1000000 * (((n >> 24) as u8) as u32) + 0x10000 * ((((n >> 16) & 0xff) as u8) as u32)
        + 0x100 * ((((n >> 8) & 0xff) as u8) as u32) + (((n & 0xff) as u8) as u32)) as u32 == n)
        by (bit_vector);
}

/// Write the four-byte big-endian frame header.
pub fn enc_u32_be(out: &mut Vec<u8>, n: u32)
    ensures
        final(out)@ == old(out)@ + spec_enc_u32_be(n),
{
    proof {
        assert((n >> 24) < 256 && ((n >> 16) & 0xff) < 256 && ((n >> 8) & 0xff) < 256 && (n & 0xff)
            < 256) by (bit_vector);
    }
    out.push((n >> 24) as u8);
    out.push(((n >> 16) & 0xff) as u8);
    out.push(((n >> 8) & 0xff) as u8);
    out.push((n & 0xff) as u8);
    assert(out@ =~= old(out)@ + spec_enc_u32_be(n));
}

/// Read a four-byte big-endian frame header.
pub fn dec_u32_be(s: &[u8]) -> (r: u32)
    requires
        s@.len() == 4,
    ensures
        r == spec_dec_u32_be(s@),
{
    let b0 = *slice_index_get(s, 0);
    let b1 = *slice_index_get(s, 1);
    let b2 = *slice_index_get(s, 2);
    let b3 = *slice_index_get(s, 3);
    0x1000000 * (b0 as u32) + 0x10000 * (b1 as u32) + 0x100 * (b2 as u32) + (b3 as u32)
}

/// What the stream reader does with a frame header it has just read.
#[derive(Clone, Copy, Debug, PartialEq, Eq, Structural)]
pub enum HeaderAction {
    /// Read this many payload bytes and decode them.
    Read(u32),
    /// The announced payload is larger than [`MAX_STREAM_FRAME`]: skip the
    /// frame and keep the connection open.
    Skip,
}

/// Decide what to do with an announced payload length. An oversized frame
/// is skipped, never fatal: the connection stays open.
pub fn classify_header(len: u32) -> (r: HeaderAction)
    ensures
        len <= MAX_STREAM_FRAME <==> r == HeaderAction::Read(len),
        len > MAX_STREAM_FRAME <==> r == HeaderAction::Skip,
{
    if len as usize <= MAX_STREAM_FRAME {
        HeaderAction::Read(len)
    } else {
        HeaderAction::Skip
    }
}

/// Frame a message for the stream link: four header bytes holding the
/// payload length big-endian, then the encoded message. A message whose
/// encoding exceeds [`MAX_STREAM_FRAME`] is refused, since the peer would
/// skip it.
pub fn encode_frame(m: &Message) -> (r: Result<Vec<u8>, TransError>)
    ensures
        spec_enc_message(*m).len() <= MAX_STREAM_FRAME <==> r is Ok,
        r matches Ok(f) ==> f@ == spec_enc_u32_be(spec_enc_message(*m).len() as u32)
            + spec_enc_message(*m),
        r matches Err(e) ==> e == TransError::InternalError,
{
    let mut payload: Vec<u8> = Vec::new();
    enc_message(&mut payload, m);
    if payload.len() > MAX_STREAM_FRAME {
        return Err(TransError::InternalError);
    }
    let mut frame: Vec<u8> = Vec::new();
    enc_u32_be(&mut frame, payload.len() as u32);
    let mut body = payload;
    frame.append(&mut body);
    proof {
        assert(frame@ =~= spec_enc_u32_be(spec_enc_message(*m).len() as u32) + spec_enc_message(
            *m,
        ));
    }
    Ok(frame)
}

/// Decode one frame's payload into a message. A payload that does not
/// parse — the empty payload of a zero-length frame included — is an
/// invalid message: the frame is skipped and the connection stays open.
pub fn decode_frame_payload(bytes: &[u8]) -> (r: Result<Message, TransError>)
    ensures
        match spec_dec_message(bytes@) {
            Some(vp) => r matches Ok(m) && m@ == vp.0,
            None => r == Err::<Message, TransError>(TransError::InvalidMessage),
        },
        bytes@.len() == 0 ==> r == Err::<Message, TransError>(TransError::InvalidMessage),
{
    proof {
        assert(bytes@.skip(0) =~= bytes@);
    }
    match dec_message(bytes, 0) {
        Some((m, _)) => Ok(m),
        None => Err(TransError::InvalidMessage),
    }
}

/// Stream round trip: for every message framed by [`encode_frame`], the
/// peer that reads the four header bytes, then exactly the announced
/// number of payload bytes, and decodes them, sees the very message that
/// was framed.
pub proof fn lemma_stream_frame_round_trip(m: Message)
    requires
        spec_enc_message(m).len() <= MAX_STREAM_FRAME,
    ensures
        ({
            let payload = spec_enc_message(m);
            let frame = spec_enc_u32_be(payload.len() as u32) + payload;
            &&& frame.len() == payload.len() + 4
            &&& spec_dec_u32_be(frame.take(4)) == payload.len()
            &&& frame.skip(4) == payload
            &&& spec_dec_message(frame.skip(4)) == Some((m@, Seq::<u8>::empty()))
        }),
{
    let payload = spec_enc_message(m);
    let frame = spec_enc_u32_be(payload.len() as u32) + payload;
    assert(frame.take(4) =~= spec_enc_u32_be(payload.len() as u32));
    lemma_u32_be_round_trip(payload.len() as u32);
    assert(frame.skip(4) =~= payload);
    lemma_message_round_trip(m, Seq::<u8>::empty());
    assert(payload + Seq::<u8>::empty() =~= payload);
}

} // verus!
