//! The WebSocket writer's verified core: one binary payload per outbound
//! message, holding exactly one wire frame.

use crate::network::frame::{encode_frame, spec_frame_bytes};
use crate::network::tcp::{PROTO_BODY_MAX_LEN, PROTO_HEADER_LEN};
use vstd::prelude::*;

verus! {

/// The binary payload the WebSocket writer sends for one encoded message:
/// the 8-byte header followed by the body.
pub fn frame_payload(proto_id: u32, buf: &[u8]) -> (r: Vec<u8>)
    requires
        buf@.len() < PROTO_BODY_MAX_LEN as int,
    ensures
        r@ == spec_frame_bytes(proto_id, buf@),
        r@.len() == PROTO_HEADER_LEN + buf@.len(),
{
    encode_frame(proto_id, buf)
}

} // verus!
