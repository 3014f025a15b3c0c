//! Transports and the non-blocking sends into a hub's ingress channel.

use crate::error::Error;
use crate::message::{MessageType, ProtoType, SMSender, SendFailure, SystemMsg, sm_try_send};
use crate::protos::{spec_proto_id, spec_proto_name};
use crate::strutil::{spec_u64_string, u64_to_string};
use vstd::prelude::*;

pub mod frame;
pub mod tcp;
pub mod ws;

verus! {

/// The text reported for one failed non-blocking send: the failure kind,
/// the destination vfd, and the message's tag and name.
pub open spec fn spec_send_error_text(full: bool, vfd: u64, proto_id: u32, name: Seq<char>) -> Seq<
    char,
> {
    "[try_send]: send="@ + (if full {
        "chan_full"@
    } else {
        "chan_closed"@
    }) + ",vfd="@ + spec_u64_string(vfd as int) + ",proto_id="@ + spec_u64_string(proto_id as int)
        + ",name="@ + name
}

/// Map one send failure to the error reported for it; the undelivered
/// message inside the failure is dropped here, as the policy demands.
pub fn send_failure_error(failure: SendFailure<SystemMsg>, vfd: u64, proto_id: u32, name: &str) -> (r:
    Error)
    ensures
        r matches Error::Message(m) && m@ == spec_send_error_text(
            failure matches SendFailure::Full(_),
            vfd,
            proto_id,
            name@,
        ),
{
    let mut s = "[try_send]: send=".to_owned();
    match &failure {
        SendFailure::Full(_) => s.append("chan_full"),
        SendFailure::Closed(_) => s.append("chan_closed"),
    }
    s.append(",vfd=");
    let v = u64_to_string(vfd);
    s.append(v.as_str());
    s.append(",proto_id=");
    let p = u64_to_string(proto_id as u64);
    s.append(p.as_str());
    s.append(",name=");
    s.append(name);
    proof {
        assert(s@ =~= spec_send_error_text(
            failure matches SendFailure::Full(_),
            vfd,
            proto_id,
            name@,
        ));
    }
    Error::Message(s)
}

/// Non-blocking send of a client-traffic envelope: one try-send of
/// `(Tcp, vfd, pto)`, succeeding exactly when the channel took it; on a
/// full or closed channel the message is dropped and the error names which.
pub fn try_send(sender: &SMSender, vfd: u64, pto: ProtoType) -> (r: Result<(), Error>)
    ensures
        exists|sr: Result<(), SendFailure<SystemMsg>>|
            #[trigger] call_ensures(
                sm_try_send::<SystemMsg>,
                (sender, (MessageType::Tcp, vfd, pto)),
                sr,
            ) && (r is Ok <==> sr is Ok) && (sr matches Err(SendFailure::Full(_)) ==> (r matches Err(
                Error::Message(m),
            ) && m@ == spec_send_error_text(true, vfd, spec_proto_id(pto), spec_proto_name(pto))))
                && (sr matches Err(SendFailure::Closed(_)) ==> (r matches Err(Error::Message(m))
                && m@ == spec_send_error_text(
                false,
                vfd,
                spec_proto_id(pto),
                spec_proto_name(pto),
            ))),
{
    inner_try_send(sender, MessageType::Tcp, vfd, pto)
}

/// Non-blocking send of a peer-RPC envelope: one try-send of
/// `(Rpc, vfd, pto)`, with the same success and error shape as `try_send`.
pub fn try_send_rpc(sender: &SMSender, vfd: u64, pto: ProtoType) -> (r: Result<(), Error>)
    ensures
        exists|sr: Result<(), SendFailure<SystemMsg>>|
            #[trigger] call_ensures(
                sm_try_send::<SystemMsg>,
                (sender, (MessageType::Rpc, vfd, pto)),
                sr,
            ) && (r is Ok <==> sr is Ok) && (sr matches Err(SendFailure::Full(_)) ==> (r matches Err(
                Error::Message(m),
            ) && m@ == spec_send_error_text(true, vfd, spec_proto_id(pto), spec_proto_name(pto))))
                && (sr matches Err(SendFailure::Closed(_)) ==> (r matches Err(Error::Message(m))
                && m@ == spec_send_error_text(
                false,
                vfd,
                spec_proto_id(pto),
                spec_proto_name(pto),
            ))),
{
    inner_try_send(sender, MessageType::Rpc, vfd, pto)
}

/// Stamp the kind and try-send once; never blocks, succeeds exactly when
/// the channel took the envelope, and a failure surfaces as a `Message`
/// error naming the failure, the vfd, and the message's tag and name.
fn inner_try_send(sender: &SMSender, msg_type: MessageType, vfd: u64, pto: ProtoType) -> (r: Result<
    (),
    Error,
>)
    ensures
        exists|sr: Result<(), SendFailure<SystemMsg>>|
            #[trigger] call_ensures(sm_try_send::<SystemMsg>, (sender, (msg_type, vfd, pto)), sr)
                && (r is Ok <==> sr is Ok) && (sr matches Err(SendFailure::Full(_)) ==> (r
                matches Err(Error::Message(m)) && m@ == spec_send_error_text(
                true,
                vfd,
                spec_proto_id(pto),
                spec_proto_name(pto),
            ))) && (sr matches Err(SendFailure::Closed(_)) ==> (r matches Err(Error::Message(m))
                && m@ == spec_send_error_text(
                false,
                vfd,
                spec_proto_id(pto),
                spec_proto_name(pto),
            ))),
{
    let (proto_id, name) = pto.inner_info();
    let res = sm_try_send(sender, (msg_type, vfd, pto));
    let ghost sr = res;
    match res {
        Ok(()) => Ok(()),
        Err(failure) => Err(send_failure_error(failure, vfd, proto_id, name.as_str())),
    }
}

} // verus!
