//! The WebSocket reader's verified core: classify one received frame and
//! take the wire frame out of a binary payload.

use crate::error::Error;
use crate::message::{MessageType, SystemMsg};
use crate::network::frame::{parse_frame, spec_body_len_ok};
use crate::network::tcp::PROTO_HEADER_LEN;
use crate::protos::ProtoType;
use vstd::bytes::spec_u32_from_le_bytes;
use vstd::prelude::*;

verus! {

/// One received WebSocket frame, as the core reads it: application data
/// travels only in binary frames; text and control frames carry none.
#[derive(Debug, Clone)]
pub enum WsPayload {
    Binary(Vec<u8>),
    Text(String),
    Ping,
    Pong,
    Close,
    Fragment,
}

/// Take one wire frame out of a received WebSocket payload. A binary frame
/// must hold exactly one well-formed wire frame; text, ping, pong and
/// fragment frames carry no data and are skipped; a close frame ends the
/// connection with a non-fatal error.
pub fn extract_frame(payload: WsPayload) -> (r: Result<Option<(u32, Vec<u8>)>, Error>)
    ensures
        payload matches WsPayload::Binary(buff) ==> {
            &&& (r matches Ok(Some((proto_id, body))) ==> {
                &&& buff@.len() >= PROTO_HEADER_LEN
                &&& proto_id == spec_u32_from_le_bytes(buff@.subrange(0, 4))
                &&& spec_u32_from_le_bytes(buff@.subrange(4, 8)) == buff@.len() - PROTO_HEADER_LEN
                &&& spec_body_len_ok((buff@.len() - PROTO_HEADER_LEN) as u32)
                &&& body@ == buff@.skip(PROTO_HEADER_LEN as int)
            })
            &&& (r is Ok ==> r matches Ok(Some(_)))
            &&& (r is Err <==> !{
                &&& buff@.len() >= PROTO_HEADER_LEN
                &&& spec_u32_from_le_bytes(buff@.subrange(4, 8)) == buff@.len() - PROTO_HEADER_LEN
                &&& spec_body_len_ok((buff@.len() - PROTO_HEADER_LEN) as u32)
            })
        },
        (payload matches WsPayload::Text(_) || payload matches WsPayload::Ping || payload
            matches WsPayload::Pong || payload matches WsPayload::Fragment) ==> r matches Ok(None),
        payload matches WsPayload::Close ==> r is Err,
{
    match payload {
        WsPayload::Binary(buff) => {
            match parse_frame(buff.as_slice()) {
                Ok((proto_id, body)) => Ok(Some((proto_id, body))),
                Err(e) => Err(e),
            }
        },
        WsPayload::Text(_) => Ok(None),
        WsPayload::Ping => Ok(None),
        WsPayload::Pong => Ok(None),
        WsPayload::Fragment => Ok(None),
        WsPayload::Close => Err(Error::message("close")),
    }
}

/// Build the envelope for a decoded WebSocket message; the WebSocket
/// transport always serves the client-facing role, so the kind is `Tcp`.
pub fn assemble_ws_msg(vfd: u64, pto: ProtoType) -> (r: SystemMsg)
    ensures
        r == (MessageType::Tcp, vfd, pto),
{
    (MessageType::Tcp, vfd, pto)
}

} // verus!
