//! The reader's verified core: header validation, kind stamping, and the
//! non-blocking publish policy toward the owning hub.

use crate::error::Error;
use crate::message::{MessageType, SMSender, SendFailure, ServiceType, SystemMsg, sm_try_send,
    spec_stamp_kind, stamp_kind};
use crate::network::frame::{body_len_ok, parse_frame_header, spec_body_len_ok};
use crate::network::tcp::PROTO_HEADER_LEN;
use crate::protos::ProtoType;
use vstd::bytes::spec_u32_from_le_bytes;
use vstd::prelude::*;

verus! {

/// What the reader does after publishing one decoded message.
#[derive(Debug, Clone, Copy, PartialEq, Eq, Structural)]
pub enum ReaderFlow {
    Continue,
    Stop,
}

/// Validate the 8-byte frame header: the protocol id and body length are
/// accepted exactly when the claimed body is under the limit, before any
/// body byte is read.
pub fn check_frame_header(header: &[u8]) -> (r: Result<(u32, u32), Error>)
    requires
        header@.len() >= PROTO_HEADER_LEN,
    ensures
        r matches Ok((proto_id, body_len)) ==> {
            &&& proto_id == spec_u32_from_le_bytes(header@.subrange(0, 4))
            &&& body_len == spec_u32_from_le_bytes(header@.subrange(4, 8))
            &&& spec_body_len_ok(body_len)
        },
        r is Err <==> !spec_body_len_ok(spec_u32_from_le_bytes(header@.subrange(4, 8))),
{
    let (proto_id, body_len) = parse_frame_header(header);
    if !body_len_ok(body_len) {
        return Err(Error::message("frame exceeds the body length limit"));
    }
    Ok((proto_id, body_len))
}

/// Build the envelope for a decoded inbound message: the kind is stamped
/// from the service's role, the session is the connection's vfd.
pub fn assemble_msg(service_type: ServiceType, vfd: u64, pto: ProtoType) -> (r: SystemMsg)
    ensures
        r.0 == spec_stamp_kind(service_type),
        r.1 == vfd,
        r.2 == pto,
{
    (stamp_kind(service_type), vfd, pto)
}

/// What the reader does after each publish outcome: an accepted envelope
/// and a full channel (the message dropped) both let the reader carry on;
/// a closed channel stops it.
pub open spec fn spec_flow_of(r: Result<(), SendFailure<SystemMsg>>) -> ReaderFlow {
    if r matches Err(SendFailure::Closed(_)) {
        ReaderFlow::Stop
    } else {
        ReaderFlow::Continue
    }
}

/// Map one publish outcome to what the reader does next.
pub fn flow_of(r: Result<(), SendFailure<SystemMsg>>) -> (flow: ReaderFlow)
    ensures
        flow == spec_flow_of(r),
{
    match r {
        Ok(()) => ReaderFlow::Continue,
        Err(SendFailure::Full(_)) => ReaderFlow::Continue,
        Err(SendFailure::Closed(_)) => ReaderFlow::Stop,
    }
}

/// Publish one envelope to the hub without ever blocking: one try-send of
/// exactly the envelope given, whose outcome fixes the flow — a full
/// channel drops the message and the reader carries on; a closed channel
/// stops it.
pub fn publish_msg(sender: &SMSender, msg: SystemMsg) -> (flow: ReaderFlow)
    ensures
        exists|sr: Result<(), SendFailure<SystemMsg>>|
            #[trigger] call_ensures(sm_try_send::<SystemMsg>, (sender, msg), sr) && flow
                == spec_flow_of(sr),
{
    let res = sm_try_send(sender, msg);
    let ghost sr = res;
    flow_of(res)
}

} // verus!
