//! Service and message kind enums, the message envelope, and the bounded
//! channel endpoints the envelopes travel through.

pub use crate::protos::ProtoType;
use vstd::prelude::*;

verus! {

/// `tokio::sync::mpsc::Sender` as an opaque endpoint of a bounded channel.
#[verifier::external_type_specification]
#[verifier::external_body]
#[verifier::reject_recursive_types(T)]
pub struct ExSender<T>(tokio::sync::mpsc::Sender<T>);

/// `tokio::sync::mpsc::Receiver` as an opaque endpoint of a bounded channel.
#[verifier::external_type_specification]
#[verifier::external_body]
#[verifier::reject_recursive_types(T)]
pub struct ExReceiver<T>(tokio::sync::mpsc::Receiver<T>);

/// The message envelope every hub consumes: kind, session, payload.
pub type SystemMsg = (MessageType, u64, ProtoType);

/// Sending end of an envelope channel.
pub type SMSender = tokio::sync::mpsc::Sender<SystemMsg>;

/// Receiving end of an envelope channel.
pub type SMReceiver = tokio::sync::mpsc::Receiver<SystemMsg>;

/// Sending end of the announce channel carrying `(vfd, SMSender)`.
pub type SMSenderChan = tokio::sync::mpsc::Sender<(u64, SMSender)>;

/// Receiving end of the announce channel.
pub type SMReceiverChan = tokio::sync::mpsc::Receiver<(u64, SMSender)>;

/// How a non-blocking send failed: the channel was full, or its receiving
/// half was gone. Either way the message comes back to the caller.
pub enum SendFailure<T> {
    Full(T),
    Closed(T),
}

/// Largest buffer a bounded channel may be created with: tokio's semaphore
/// permit cap.
pub const MAX_CHANNEL_BUFFER: usize = usize::MAX >> 3;

/// Relies on `tokio::sync::mpsc::channel`: a fresh bounded channel pair.
/// The call panics on a buffer of zero and on one above the semaphore's
/// permit cap, so both are excluded here.
#[verifier::external_body]
pub fn sm_channel<T>(buffer: usize) -> (tokio::sync::mpsc::Sender<T>, tokio::sync::mpsc::Receiver<
    T,
>)
    requires
        1 <= buffer <= MAX_CHANNEL_BUFFER,
{
    tokio::sync::mpsc::channel(buffer)
}

/// Relies on `tokio::sync::mpsc::Sender::try_send`: on failure the message
/// comes back unchanged inside the error, as tokio's source shows; whether
/// the send succeeds depends on the channel's runtime state, so every
/// outcome must be handled.
#[verifier::external_body]
pub fn sm_try_send<T>(sender: &tokio::sync::mpsc::Sender<T>, msg: T) -> (r: Result<
    (),
    SendFailure<T>,
>)
    ensures
        r matches Err(SendFailure::Full(m)) ==> m == msg,
        r matches Err(SendFailure::Closed(m)) ==> m == msg,
{
    match sender.try_send(msg) {
        Ok(()) => Ok(()),
        Err(tokio::sync::mpsc::error::TrySendError::Full(m)) => Err(SendFailure::Full(m)),
        Err(tokio::sync::mpsc::error::TrySendError::Closed(m)) => Err(SendFailure::Closed(m)),
    }
}

/// Relies on `tokio::sync::mpsc::Sender::clone`: another handle to the same
/// channel. Nothing is claimed of the value.
#[verifier::external_body]
pub fn sm_sender_clone<T>(sender: &tokio::sync::mpsc::Sender<T>) -> tokio::sync::mpsc::Sender<T> {
    sender.clone()
}

/// The role a service plays, which decides how inbound messages are stamped
/// and which outbound message kinds its writers accept.
#[derive(Debug, Clone, Copy, PartialEq, Eq, Structural)]
pub enum ServiceType {
    TCP,
    RPC,
    RPCCLIENT,
    TCPROBOT,
    DB,
    UNKNOW,
}

/// The kind stamped on each message envelope flowing through the hubs.
#[derive(Debug, Clone, Copy, PartialEq, Eq, Structural)]
pub enum MessageType {
    Tcp,
    Rpc,
    RpcClient,
    SocketClosed,
    Dummy,
}

/// The role a configuration's `service_type` text denotes.
pub open spec fn spec_service_type_of_name(s: Seq<char>) -> ServiceType {
    if s == "game_service"@ {
        ServiceType::TCP
    } else if s == "rpc_service"@ {
        ServiceType::RPC
    } else if s == "rpc_client_service"@ {
        ServiceType::RPCCLIENT
    } else if s == "robot_service"@ {
        ServiceType::TCPROBOT
    } else if s == "db_service"@ {
        ServiceType::DB
    } else {
        ServiceType::UNKNOW
    }
}

/// The configuration text of a role.
pub open spec fn spec_service_type_name(t: ServiceType) -> Seq<char> {
    match t {
        ServiceType::TCP => "game_service"@,
        ServiceType::RPC => "rpc_service"@,
        ServiceType::RPCCLIENT => "rpc_client_service"@,
        ServiceType::TCPROBOT => "robot_service"@,
        ServiceType::DB => "db_service"@,
        ServiceType::UNKNOW => "unknow_service"@,
    }
}

impl<'a> From<&'a str> for ServiceType {
    fn from(value: &'a str) -> (r: Self)
        ensures
            r == spec_service_type_of_name(value@),
    {
        let v: String = value.to_owned();
        if v == "game_service".to_owned() {
            ServiceType::TCP
        } else if v == "rpc_service".to_owned() {
            ServiceType::RPC
        } else if v == "rpc_client_service".to_owned() {
            ServiceType::RPCCLIENT
        } else if v == "robot_service".to_owned() {
            ServiceType::TCPROBOT
        } else if v == "db_service".to_owned() {
            ServiceType::DB
        } else {
            ServiceType::UNKNOW
        }
    }
}

impl<'a> vstd::std_specs::convert::FromSpecImpl<&'a str> for ServiceType {
    open spec fn obeys_from_spec() -> bool {
        true
    }

    open spec fn from_spec(value: &'a str) -> Self {
        spec_service_type_of_name(value@)
    }
}

impl ServiceType {
    /// The configuration text of this role.
    pub fn to_name(self) -> (r: String)
        ensures
            r@ == spec_service_type_name(self),
    {
        match self {
            ServiceType::TCP => "game_service".to_owned(),
            ServiceType::RPC => "rpc_service".to_owned(),
            ServiceType::RPCCLIENT => "rpc_client_service".to_owned(),
            ServiceType::TCPROBOT => "robot_service".to_owned(),
            ServiceType::DB => "db_service".to_owned(),
            ServiceType::UNKNOW => "unknow_service".to_owned(),
        }
    }
}

/// Message kind a reader stamps on inbound traffic, by the service's role.
pub open spec fn spec_stamp_kind(st: ServiceType) -> MessageType {
    match st {
        ServiceType::TCP => MessageType::Tcp,
        ServiceType::RPC => MessageType::Rpc,
        ServiceType::RPCCLIENT => MessageType::RpcClient,
        _ => MessageType::Dummy,
    }
}

/// Stamp the message kind for inbound traffic of a service.
pub fn stamp_kind(st: ServiceType) -> (k: MessageType)
    ensures
        k == spec_stamp_kind(st),
{
    match st {
        ServiceType::TCP => MessageType::Tcp,
        ServiceType::RPC => MessageType::Rpc,
        ServiceType::RPCCLIENT => MessageType::RpcClient,
        _ => MessageType::Dummy,
    }
}

} // verus!
