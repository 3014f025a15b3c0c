//! The writer's verified core: the compatibility guard between a service's
//! role and an outbound message's kind.

use crate::message::{MessageType, ServiceType};
use vstd::prelude::*;

verus! {

/// Which outbound message kinds a writer of the given role forwards: a
/// client-facing writer only `Tcp`, the two RPC roles `Rpc` or `RpcClient`,
/// every other role nothing.
pub open spec fn spec_writer_accepts(service_type: ServiceType, msg_type: MessageType) -> bool {
    match service_type {
        ServiceType::TCP => msg_type == MessageType::Tcp,
        ServiceType::RPC | ServiceType::RPCCLIENT => msg_type == MessageType::Rpc || msg_type
            == MessageType::RpcClient,
        _ => false,
    }
}

/// The writer's compatibility guard; an incompatible message is dropped
/// (logged by the caller), never written.
pub fn writer_accepts(service_type: ServiceType, msg_type: MessageType) -> (proceed: bool)
    ensures
        proceed == spec_writer_accepts(service_type, msg_type),
{
    match service_type {
        ServiceType::TCP => msg_type == MessageType::Tcp,
        ServiceType::RPC | ServiceType::RPCCLIENT => msg_type == MessageType::Rpc || msg_type
            == MessageType::RpcClient,
        _ => false,
    }
}

/// Whether the envelope's source matches this connection. The framed-TCP
/// writer expects its own vfd; the WebSocket writer also accepts the
/// reserved well-known targets below 100.
pub open spec fn spec_vfd_matches(vfd: u64, from_vfd: u64, is_ws: bool) -> bool {
    from_vfd == vfd || (is_ws && from_vfd < 100)
}

/// The source check a writer logs on; it does not gate the write.
pub fn vfd_matches(vfd: u64, from_vfd: u64, is_ws: bool) -> (ok: bool)
    ensures
        ok == spec_vfd_matches(vfd, from_vfd, is_ws),
{
    from_vfd == vfd || (is_ws && from_vfd < 100)
}

} // verus!
