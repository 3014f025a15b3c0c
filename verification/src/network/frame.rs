//! The wire frame shared by the TCP and WebSocket transports: an 8-byte
//! little-endian header `proto_id:u32 || body_length:u32` followed by the
//! body, with a hard upper bound on the body length.

use crate::error::Error;
use crate::network::tcp::{PROTO_BODY_MAX_LEN, PROTO_HEADER_LEN};
use vstd::bytes::{
    lemma_auto_spec_u32_to_from_le_bytes, spec_u32_from_le_bytes, spec_u32_to_le_bytes,
    u32_from_le_bytes, u32_to_le_bytes,
};
use vstd::prelude::*;

verus! {

/// The full wire image of one frame.
pub open spec fn spec_frame_bytes(proto_id: u32, body: Seq<u8>) -> Seq<u8> {
    spec_u32_to_le_bytes(proto_id) + spec_u32_to_le_bytes(body.len() as u32) + body
}

/// Whether a claimed body length is under the hard limit.
pub open spec fn spec_body_len_ok(body_len: u32) -> bool {
    (body_len as int) < PROTO_BODY_MAX_LEN as int
}

/// Decode the two header fields from the first 8 bytes of a frame.
pub fn parse_frame_header(header: &[u8]) -> (r: (u32, u32))
    requires
        header@.len() >= PROTO_HEADER_LEN,
    ensures
        r.0 == spec_u32_from_le_bytes(header@.subrange(0, 4)),
        r.1 == spec_u32_from_le_bytes(header@.subrange(4, 8)),
{
    let proto_id = u32_from_le_bytes(&header[0..4]);
    let body_len = u32_from_le_bytes(&header[4..8]);
    (proto_id, body_len)
}

/// Reject a body length at or over the limit, before any body byte is read.
pub fn body_len_ok(body_len: u32) -> (ok: bool)
    ensures
        ok == spec_body_len_ok(body_len),
{
    (body_len as usize) < PROTO_BODY_MAX_LEN
}

/// Encode the 8-byte header for a frame.
pub fn encode_frame_header(proto_id: u32, body_len: u32) -> (r: Vec<u8>)
    ensures
        r@ == spec_u32_to_le_bytes(proto_id) + spec_u32_to_le_bytes(body_len),
        r@.len() == PROTO_HEADER_LEN,
{
    let mut h = u32_to_le_bytes(proto_id);
    let mut l = u32_to_le_bytes(body_len);
    h.append(&mut l);
    proof {
        lemma_auto_spec_u32_to_from_le_bytes();
    }
    h
}

/// Encode a whole frame: header then body.
pub fn encode_frame(proto_id: u32, body: &[u8]) -> (r: Vec<u8>)
    requires
        body@.len() < PROTO_BODY_MAX_LEN as int,
    ensures
        r@ == spec_frame_bytes(proto_id, body@),
        r@.len() == PROTO_HEADER_LEN + body@.len(),
{
    let mut r = encode_frame_header(proto_id, body.len() as u32);
    r.extend_from_slice(body);
    proof {
        lemma_auto_spec_u32_to_from_le_bytes();
        assert(r@ =~= spec_frame_bytes(proto_id, body@));
    }
    r
}

/// Take apart one whole frame carried as a single buffer, as the WebSocket
/// transport delivers it: the header must be present, the claimed body length
/// must match the buffer exactly, and the body must be under the limit.
pub fn parse_frame(buff: &[u8]) -> (r: Result<(u32, Vec<u8>), Error>)
    ensures
        r matches Ok((proto_id, body)) ==> {
            &&& buff@.len() >= PROTO_HEADER_LEN
            &&& proto_id == spec_u32_from_le_bytes(buff@.subrange(0, 4))
            &&& spec_u32_from_le_bytes(buff@.subrange(4, 8)) == buff@.len() - PROTO_HEADER_LEN
            &&& spec_body_len_ok((buff@.len() - PROTO_HEADER_LEN) as u32)
            &&& body@ == buff@.skip(PROTO_HEADER_LEN as int)
        },
        r is Err ==> !{
            &&& buff@.len() >= PROTO_HEADER_LEN
            &&& spec_u32_from_le_bytes(buff@.subrange(4, 8)) == buff@.len() - PROTO_HEADER_LEN
            &&& spec_body_len_ok((buff@.len() - PROTO_HEADER_LEN) as u32)
        },
{
    if buff.len() < PROTO_HEADER_LEN {
        return Err(Error::message("wrong header"));
    }
    let buff_body_len = buff.len() - PROTO_HEADER_LEN;
    if buff_body_len >= PROTO_BODY_MAX_LEN {
        return Err(Error::message("frame exceeds the body length limit"));
    }
    let (proto_id, body_len) = parse_frame_header(buff);
    if body_len as usize != buff_body_len {
        return Err(Error::message("header length does not match the frame"));
    }
    let mut body: Vec<u8> = Vec::new();
    body.extend_from_slice(&buff[PROTO_HEADER_LEN..buff.len()]);
    proof {
        assert(body@ =~= buff@.skip(PROTO_HEADER_LEN as int));
    }
    Ok((proto_id, body))
}

/// Law: framing round-trips. For every `proto_id` and every body under the
/// limit, the encoded frame parses back to the same header fields and body;
/// and a header claiming a body at or over the limit is rejected on the
/// header alone.
pub proof fn lemma_frame_round_trip(proto_id: u32, body: Seq<u8>)
    requires
        body.len() < PROTO_BODY_MAX_LEN as int,
    ensures
        ({
            let f = spec_frame_bytes(proto_id, body);
            &&& f.len() == PROTO_HEADER_LEN + body.len()
            &&& spec_u32_from_le_bytes(f.subrange(0, 4)) == proto_id
            &&& spec_u32_from_le_bytes(f.subrange(4, 8)) == body.len()
            &&& spec_body_len_ok((f.len() - PROTO_HEADER_LEN) as u32)
            &&& f.skip(PROTO_HEADER_LEN as int) =~= body
        }),
{
    lemma_auto_spec_u32_to_from_le_bytes();
    let f = spec_frame_bytes(proto_id, body);
    assert(f.subrange(0, 4) =~= spec_u32_to_le_bytes(proto_id));
    assert(f.subrange(4, 8) =~= spec_u32_to_le_bytes(body.len() as u32));
    assert(f.skip(PROTO_HEADER_LEN as int) =~= body);
}

} // verus!
