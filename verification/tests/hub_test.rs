//! The game hub's event handling, and the client echo path end to end
//! through the model: frame in, dispatch, echo, frame out.

use cable::config::Config;
use cable::logger::Outter;
use cable::message::{MessageType, ServiceType, stamp_kind};
use cable::network::frame::{encode_frame, parse_frame};
use cable::network::tcp::service::ServiceCore;
use cable::network::tcp::write::writer_accepts;
use cable::protos::{ProtoType, decode, encode};
use cable::services::game_hub::{HubAction, HubEvent, game_hub_step};
use cable::states::{Communicate, GameState};

fn fresh_gs(name: &str) -> GameState {
    GameState::new(ServiceType::TCP, Config::empty(), 1, Outter::new(name))
}

#[test]
fn client_echo_round_trip() {
    // A client sends frame proto_id=101, body=[1,2,3]; the business layer
    // echoes it; the client gets the identical frame back, and the close
    // is observed with the matching vfd.
    let mut gs = fresh_gs("game_state.log");
    let mut rpc_gs = fresh_gs("rpc_state.log");
    let mut core = ServiceCore::new(ServiceType::TCP, "0.0.0.0:8182".to_string(), 8);
    let vfd = core.inc_counter();
    assert_eq!(vfd, 101);

    let (tx, mut rx) = tokio::sync::mpsc::channel(8);
    match game_hub_step(&mut gs, &mut rpc_gs, HubEvent::NewConn(vfd, tx)) {
        HubAction::Idle => {}
        _ => panic!("announcements produce no upcall"),
    }
    assert!(gs.get_sender(vfd).is_some());

    // Ingress: wire frame -> header/body -> decode -> stamped envelope.
    let wire = encode_frame(101, &[1, 2, 3]);
    let (proto_id, body) = parse_frame(wire.as_slice()).unwrap();
    let pto = decode(proto_id, body.as_slice()).unwrap();
    let kind = stamp_kind(ServiceType::TCP);
    assert_eq!(kind, MessageType::Tcp);
    let upcall = match game_hub_step(&mut gs, &mut rpc_gs, HubEvent::Msg(kind, vfd, pto)) {
        HubAction::Dispatch(u) => u,
        _ => panic!("a data message must dispatch"),
    };
    assert_eq!(upcall.vfd, vfd);
    assert_eq!(upcall.proto_id, 101);

    // The business layer echoes the payload to the same vfd.
    let sender = gs.get_sender(vfd).unwrap();
    cable::network::try_send(sender, vfd, upcall.pto).unwrap();
    let (okind, ovfd, opto) = rx.try_recv().unwrap();
    assert_eq!(okind, MessageType::Tcp);
    assert_eq!(ovfd, vfd);

    // Egress: the writer accepts the kind, encodes, and frames.
    assert!(writer_accepts(ServiceType::TCP, okind));
    let (opid, _name) = opto.inner_info();
    let obody = encode(opto).unwrap();
    let owire = encode_frame(opid, obody.as_slice());
    assert_eq!(owire, wire);

    // The connection closes: the hub evicts the vfd.
    let dummy = ProtoType::Dummy(cable::protos::Dummy::default());
    match game_hub_step(&mut gs, &mut rpc_gs, HubEvent::Msg(MessageType::SocketClosed, vfd, dummy))
    {
        HubAction::Idle => {}
        _ => panic!("close produces no upcall"),
    }
    assert!(gs.get_sender(vfd).is_none());
}

#[test]
fn game_hub_rpc_events() {
    let mut gs = fresh_gs("game_state.log");
    let mut rpc_gs = fresh_gs("rpc_state.log");

    let (tx, _rx) = tokio::sync::mpsc::channel(4);
    match game_hub_step(&mut gs, &mut rpc_gs, HubEvent::NewRpcConn(7, tx)) {
        HubAction::Idle => {}
        _ => panic!("announcements produce no upcall"),
    }
    assert!(rpc_gs.get_sender(7).is_some());

    let mut p = cable::protos::RpcSend::default();
    p.from_host = 2;
    p.from_addr = "0.0.0.0:8184".to_string();
    p.session = 42;
    p.func = "f".to_string();
    p.args = "a,b".to_string();
    let ev = HubEvent::RpcMsg(MessageType::Rpc, 7, ProtoType::RpcSend(p));
    match game_hub_step(&mut gs, &mut rpc_gs, ev) {
        HubAction::RpcDispatch(u) => {
            assert!(u.is_send);
            assert_eq!(u.from_host, 2);
            assert_eq!(u.from_addr, "0.0.0.0:8184");
            assert_eq!(u.session, 42);
            assert_eq!(u.func, "f");
            assert_eq!(u.args, "a,b");
        }
        _ => panic!("rpc requests must dispatch"),
    }

    // A response dispatches with is_send clear.
    let mut q = cable::protos::RpcSend::default();
    q.from_host = 2;
    let ev = HubEvent::RpcMsg(MessageType::Rpc, 7, ProtoType::RpcResp(q));
    match game_hub_step(&mut gs, &mut rpc_gs, ev) {
        HubAction::RpcDispatch(u) => assert!(!u.is_send),
        _ => panic!("rpc responses must dispatch"),
    }

    // An rpc-side close evicts the rpc registry.
    let dummy = ProtoType::Dummy(cable::protos::Dummy::default());
    let ev = HubEvent::RpcMsg(MessageType::SocketClosed, 7, dummy);
    match game_hub_step(&mut gs, &mut rpc_gs, ev) {
        HubAction::Idle => {}
        _ => panic!("close produces no upcall"),
    }
    assert!(rpc_gs.get_sender(7).is_none());
}

#[test]
fn game_hub_tick_fires_timers() {
    let mut gs = fresh_gs("game_state.log");
    let mut rpc_gs = fresh_gs("rpc_state.log");
    let id = gs.timer_state.add_timer_at(0, 50, 0);
    assert_eq!(id, 1);
    match game_hub_step(&mut gs, &mut rpc_gs, HubEvent::Tick(10)) {
        HubAction::Idle => {}
        _ => panic!("nothing matured yet"),
    }
    match game_hub_step(&mut gs, &mut rpc_gs, HubEvent::Tick(60)) {
        HubAction::TimerFired(ids) => assert_eq!(ids, vec![1u64]),
        _ => panic!("the timer matured"),
    }
}

#[test]
fn vfd_allocation_is_strictly_increasing() {
    let mut core = ServiceCore::new(ServiceType::TCP, String::new(), 4);
    let a = core.inc_counter();
    let b = core.inc_counter();
    let c = core.inc_counter();
    assert_eq!((a, b, c), (101, 102, 103));
}
