//! The game hub's decisions: one step per multiplexed event. The host's
//! select loop receives the events and performs the upcalls; which upcall
//! (if any) an event produces, and what happens to the registries and the
//! timer scheduler, is decided and proved here.

use crate::message::{MessageType, SMSender};
use crate::protos::ProtoType;
use crate::states::game_state::{RpcUpcall, TcpUpcall};
use crate::states::timer_state::{entry_ids, matured_count};
use crate::states::{Communicate, GameState};
use vstd::prelude::*;

verus! {

/// One event of the game hub's fair select: a new client connection, an
/// inbound client message, a new peer connection, an inbound peer message,
/// or a heartbeat tick at the given clock value.
pub enum HubEvent {
    NewConn(u64, SMSender),
    Msg(MessageType, u64, ProtoType),
    NewRpcConn(u64, SMSender),
    RpcMsg(MessageType, u64, ProtoType),
    Tick(i64),
}

/// What the host must do after one step: nothing, one client upcall, one
/// peer upcall, or the timer upcall with the matured ids.
pub enum HubAction {
    Idle,
    Dispatch(TcpUpcall),
    RpcDispatch(RpcUpcall),
    TimerFired(Vec<u64>),
}

/// One step of the game hub: `gs` is the client-side state, `rpc_gs` the
/// peer-side registry holder. A closed socket evicts the registry of the
/// side it arrived on (game sockets the game registry, peer sockets the
/// peer registry); everything else either registers, dispatches, or
/// advances the timers.
pub fn game_hub_step(gs: &mut GameState, rpc_gs: &mut GameState, ev: HubEvent) -> (r: HubAction)
    requires
        old(gs).wf(),
        old(rpc_gs).wf(),
    ensures
        final(gs).wf(),
        final(rpc_gs).wf(),
        final(gs).host_id == old(gs).host_id,
        final(gs).rpc == old(gs).rpc,
        final(rpc_gs).host_id == old(rpc_gs).host_id,
        final(rpc_gs).rpc == old(rpc_gs).rpc,
        ev matches HubEvent::NewConn(vfd, sender) ==> {
            &&& final(gs).conn_view() == old(gs).conn_view().insert(vfd, sender)
            &&& final(gs).timer_state == old(gs).timer_state
            &&& *final(rpc_gs) == *old(rpc_gs)
            &&& r matches HubAction::Idle
        },
        ev matches HubEvent::NewRpcConn(vfd, sender) ==> {
            &&& final(rpc_gs).conn_view() == old(rpc_gs).conn_view().insert(vfd, sender)
            &&& *final(gs) == *old(gs)
            &&& r matches HubAction::Idle
        },
        ev matches HubEvent::Msg(k, session, pto) ==> {
            &&& (k == MessageType::SocketClosed ==> {
                &&& final(gs).conn_view() == old(gs).conn_view().remove(session)
                &&& final(gs).timer_state == old(gs).timer_state
                &&& *final(rpc_gs) == *old(rpc_gs)
                &&& r matches HubAction::Idle
            })
            &&& (k != MessageType::SocketClosed ==> {
                &&& *final(gs) == *old(gs)
                &&& *final(rpc_gs) == *old(rpc_gs)
                &&& (r matches HubAction::Dispatch(u) && u.vfd == session && u.proto_id
                    == crate::protos::spec_proto_id(pto) && u.name@
                    == crate::protos::spec_proto_name(pto) && u.pto == pto)
            })
        },
        ev matches HubEvent::RpcMsg(k, session, pto) ==> {
            &&& (k == MessageType::SocketClosed ==> {
                &&& final(rpc_gs).conn_view() == old(rpc_gs).conn_view().remove(session)
                &&& *final(gs) == *old(gs)
                &&& r matches HubAction::Idle
            })
            &&& (k != MessageType::SocketClosed ==> {
                &&& *final(gs) == *old(gs)
                &&& *final(rpc_gs) == *old(rpc_gs)
                &&& (pto matches ProtoType::RpcSend(p) ==> (r matches HubAction::RpcDispatch(u)
                    && u.is_send && u.from_host == p.from_host && u.session == p.session && u.func@
                    == p.func@ && u.args@ == p.args@ && u.from_addr@ == p.from_addr@))
                &&& (pto matches ProtoType::RpcResp(p) ==> (r matches HubAction::RpcDispatch(u)
                    && !u.is_send && u.from_host == p.from_host && u.session == p.session
                    && u.func@ == p.func@ && u.args@ == p.args@ && u.from_addr@ == p.from_addr@))
                &&& (!(pto matches ProtoType::RpcSend(_) || pto matches ProtoType::RpcResp(_))
                    ==> r matches HubAction::Idle)
            })
        },
        ev matches HubEvent::Tick(now) ==> {
            let kp = matured_count(old(gs).timer_state.orders@, now);
            let ko = matured_count(old(gs).timer_state.once_orders@, now);
            &&& final(gs).conn_view() == old(gs).conn_view()
            &&& *final(rpc_gs) == *old(rpc_gs)
            &&& (kp + ko > 0 ==> (r matches HubAction::TimerFired(ids) && ids@ == entry_ids(
                old(gs).timer_state.orders@.take(kp),
            ) + entry_ids(old(gs).timer_state.once_orders@.take(ko))))
            &&& (kp + ko == 0 ==> (r matches HubAction::Idle && *final(gs) == *old(gs)))
        },
{
    match ev {
        HubEvent::NewConn(vfd, sender) => {
            gs.add_vfd(vfd, sender);
            HubAction::Idle
        },
        HubEvent::Msg(msg_type, session, pto) => {
            if msg_type == MessageType::SocketClosed {
                gs.delete_vfd(session);
                HubAction::Idle
            } else {
                HubAction::Dispatch(gs.dispatch(msg_type, session, pto))
            }
        },
        HubEvent::NewRpcConn(vfd, sender) => {
            rpc_gs.add_vfd(vfd, sender);
            HubAction::Idle
        },
        HubEvent::RpcMsg(msg_type, session, pto) => {
            if msg_type == MessageType::SocketClosed {
                rpc_gs.delete_vfd(session);
                HubAction::Idle
            } else {
                match gs.rpc_dispatch(msg_type, session, pto) {
                    Some(u) => HubAction::RpcDispatch(u),
                    None => HubAction::Idle,
                }
            }
        },
        HubEvent::Tick(now) => {
            match gs.update_timer(now) {
                Some(ids) => HubAction::TimerFired(ids),
                None => HubAction::Idle,
            }
        },
    }
}

} // verus!
