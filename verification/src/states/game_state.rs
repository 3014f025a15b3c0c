//! The per-hub game state: the connection registry, the outbound RPC
//! sender, the timer scheduler, and the upcall arguments handed to the
//! scripted business layer. The script VM itself lives with the host; this
//! state only decides what to call it with.

use crate::config::Config;
use crate::error::Error;
use crate::logger::Outter;
use crate::message::{MessageType, SMSender, ServiceType};
use crate::network::try_send_rpc;
use crate::protos::{ProtoType, RpcSend};
use crate::states::timer_state::{entry_ids, matured_count};
use crate::states::{Communicate, TcpState, TimerState};
use crate::strutil::{is_i32_string, spec_i32_value};
use vstd::prelude::*;

verus! {

/// Arguments of the business layer's client-traffic upcall
/// (`_tcp_msg(vfd, proto_id, name, payload)`).
pub struct TcpUpcall {
    pub vfd: u64,
    pub proto_id: u32,
    pub name: String,
    pub pto: ProtoType,
}

/// Arguments of the business layer's peer-traffic upcall
/// (`_rpc_msg(is_send, from_host, from_addr, session, func, args)`).
pub struct RpcUpcall {
    pub is_send: bool,
    pub from_host: i32,
    pub from_addr: String,
    pub session: u64,
    pub func: String,
    pub args: String,
}

/// One hub's game-side state.
pub struct GameState {
    pub host_id: i32,
    pub log: Outter,
    pub rpc: Option<SMSender>,
    pub tcp_state: TcpState,
    pub timer_state: TimerState,
}

impl GameState {
    /// Structural invariant: the registry and the scheduler are well formed.
    pub open spec fn wf(&self) -> bool {
        &&& self.tcp_state.conn_wf()
        &&& self.timer_state.wf()
    }

    /// The vfd-to-endpoint mapping held.
    pub open spec fn conn_view(&self) -> Map<u64, SMSender> {
        self.tcp_state.conn_view()
    }

    /// Fresh state for one hub: an empty registry, a scheduler at the
    /// configured tick rate (10 frames per second when unset), and no RPC
    /// sender yet. The service's role decides elsewhere whether a script VM
    /// is attached; this state is the same for every role.
    pub fn new(_service_type: ServiceType, conf: Config, host_id: i32, log: Outter) -> (r:
        GameState)
        requires
            conf.wf(),
            conf.spec_map().dom().contains("fps"@) ==> is_i32_string(conf.spec_map()["fps"@])
                && spec_i32_value(conf.spec_map()["fps"@]) > 0,
        ensures
            r.wf(),
            r.host_id == host_id,
            r.rpc is None,
            r.conn_view() =~= Map::<u64, SMSender>::empty(),
            r.timer_state.inc_id == 0,
    {
        let fps = match conf.get_int("fps") {
            Some(v) => v,
            None => 10,
        };
        let tcp_state = TcpState::new();
        let timer_state = TimerState::new(fps);
        GameState { host_id, log, rpc: None, tcp_state, timer_state }
    }

    /// This server's identity in the peer fleet.
    pub fn get_host_id(&self) -> (r: i32)
        ensures
            r == self.host_id,
    {
        self.host_id
    }

    /// Register a live connection's outbound channel.
    pub fn add_vfd(&mut self, vfd: u64, smsender: SMSender)
        requires
            old(self).wf(),
        ensures
            final(self).wf(),
            final(self).conn_view() == old(self).conn_view().insert(vfd, smsender),
            final(self).timer_state == old(self).timer_state,
            final(self).rpc == old(self).rpc,
            final(self).host_id == old(self).host_id,
            final(self).log == old(self).log,
    {
        self.tcp_state.register(vfd, smsender);
    }

    /// Evict a connection.
    pub fn delete_vfd(&mut self, vfd: u64)
        requires
            old(self).wf(),
        ensures
            final(self).wf(),
            final(self).conn_view() == old(self).conn_view().remove(vfd),
            final(self).timer_state == old(self).timer_state,
            final(self).rpc == old(self).rpc,
            final(self).host_id == old(self).host_id,
            final(self).log == old(self).log,
    {
        self.tcp_state.unregister(vfd);
    }

    /// The outbound channel of a live connection.
    pub fn get_sender(&self, vfd: u64) -> (r: Option<&SMSender>)
        requires
            self.wf(),
        ensures
            r matches Some(t) ==> self.conn_view().dom().contains(vfd) && *t
                == self.conn_view()[vfd],
            r is None ==> !self.conn_view().dom().contains(vfd),
    {
        self.tcp_state.get(vfd)
    }

    /// Attach the outbound RPC sender; it is set exactly once.
    pub fn set_rpc_sender(&mut self, rpc_sender: SMSender)
        requires
            old(self).rpc is None,
        ensures
            final(self).rpc is Some,
            final(self).tcp_state == old(self).tcp_state,
            final(self).timer_state == old(self).timer_state,
            final(self).host_id == old(self).host_id,
    {
        self.rpc = Some(rpc_sender);
    }

    /// The outbound RPC sender, if attached.
    pub fn get_rpc_sender(&self) -> (r: Option<&SMSender>)
        ensures
            r is Some <==> self.rpc is Some,
    {
        self.rpc.as_ref()
    }

    /// Advance the timer scheduler to `now` and hand back the matured timer
    /// ids for the business layer's timer upcall, in the scheduler's order.
    pub fn update_timer(&mut self, now: i64) -> (r: Option<Vec<u64>>)
        requires
            old(self).wf(),
        ensures
            final(self).wf(),
            final(self).tcp_state == old(self).tcp_state,
            final(self).rpc == old(self).rpc,
            final(self).host_id == old(self).host_id,
            final(self).log == old(self).log,
            ({
                let kp = matured_count(old(self).timer_state.orders@, now);
                let ko = matured_count(old(self).timer_state.once_orders@, now);
                &&& (r is Some <==> kp + ko > 0)
                &&& (r is None ==> final(self).timer_state == old(self).timer_state)
                &&& (r matches Some(ids) ==> ids@ == entry_ids(
                    old(self).timer_state.orders@.take(kp),
                ) + entry_ids(old(self).timer_state.once_orders@.take(ko)))
            }),
    {
        self.timer_state.update(now)
    }

    /// The client-traffic upcall for one inbound message: the business
    /// layer's `_tcp_msg` gets the source vfd and the message's tag, name
    /// and payload, whatever its kind stamp.
    pub fn dispatch(&mut self, _msg_type: MessageType, vfd: u64, pto: ProtoType) -> (r: TcpUpcall)
        ensures
            *final(self) == *old(self),
            r.vfd == vfd,
            r.proto_id == crate::protos::spec_proto_id(pto),
            r.name@ == crate::protos::spec_proto_name(pto),
            r.pto == pto,
    {
        let (proto_id, name) = pto.inner_info();
        TcpUpcall { vfd, proto_id, name, pto }
    }

    /// The peer-traffic upcall for one inbound RPC message: requests upcall
    /// with `is_send` set, responses with it clear; any other message is
    /// not for the RPC entry point and yields no upcall.
    pub fn rpc_dispatch(&mut self, _msg_type: MessageType, _vfd: u64, pto: ProtoType) -> (r: Option<
        RpcUpcall,
    >)
        ensures
            *final(self) == *old(self),
            pto matches ProtoType::RpcSend(p) ==> r matches Some(u) && u.is_send && u.from_host
                == p.from_host && u.from_addr@ == p.from_addr@ && u.session == p.session && u.func@
                == p.func@ && u.args@ == p.args@,
            pto matches ProtoType::RpcResp(p) ==> r matches Some(u) && !u.is_send && u.from_host
                == p.from_host && u.from_addr@ == p.from_addr@ && u.session == p.session && u.func@
                == p.func@ && u.args@ == p.args@,
            !(pto matches ProtoType::RpcSend(_) || pto matches ProtoType::RpcResp(_)) ==> r
                is None,
    {
        match pto {
            ProtoType::RpcSend(p) => Some(
                RpcUpcall {
                    is_send: true,
                    from_host: p.from_host,
                    from_addr: p.from_addr,
                    session: p.session,
                    func: p.func,
                    args: p.args,
                },
            ),
            ProtoType::RpcResp(p) => Some(
                RpcUpcall {
                    is_send: false,
                    from_host: p.from_host,
                    from_addr: p.from_addr,
                    session: p.session,
                    func: p.func,
                    args: p.args,
                },
            ),
            _ => None,
        }
    }

    /// Send one fixed test request to the peer: host 1 calls host 2 and
    /// every other host calls host 1, through the attached RPC sender.
    pub fn test_rpc_send(&mut self) -> (r: Result<(), Error>)
        requires
            old(self).rpc is Some,
        ensures
            *final(self) == *old(self),
    {
        let mut rsend = RpcSend::default();
        if self.host_id == 1 {
            rsend.from_host = 1;
            rsend.from_addr = "0.0.0.0:8182".to_owned();
            rsend.to_host = 2;
            rsend.to_addr = "0.0.0.0:8184".to_owned();
            rsend.session = 100001;
            rsend.func = "func_rpc_test".to_owned();
            rsend.args = "11,22,33".to_owned();
        } else {
            rsend.from_host = 2;
            rsend.from_addr = "0.0.0.0:8184".to_owned();
            rsend.to_host = 1;
            rsend.to_addr = "0.0.0.0:8182".to_owned();
            rsend.session = 200001;
            rsend.func = "func_rpc_test".to_owned();
            rsend.args = "33,11,22".to_owned();
        }
        let to_host = rsend.to_host;
        let pto = ProtoType::RpcSend(rsend);
        let sender = self.get_rpc_sender().unwrap();
        try_send_rpc(
            sender,
            #[verifier::truncate]
            (to_host as u64),
            pto,
        )
    }
}

} // verus!
