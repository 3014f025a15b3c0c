//! The RPC client hub: dial-in-flight buffering, the 500 cap, flush order,
//! self-routing rejection and eviction.

use cable::config::Config;
use cable::logger::Outter;
use cable::message::{MessageType, ServiceType};
use cable::protos::{ProtoType, RpcSend};
use cable::services::rpc_client_hub::{DialPhase, RpcClientHub, RpcRoute};
use cable::states::{Communicate, GameState};

fn fresh_gs(host_id: i32) -> GameState {
    GameState::new(
        ServiceType::RPCCLIENT,
        Config::empty(),
        host_id,
        Outter::new("rpc_client_state.log"),
    )
}

fn rpc_to_host_two(args: &str) -> ProtoType {
    let mut p = RpcSend::default();
    p.from_host = 1;
    p.from_addr = "0.0.0.0:8182".to_string();
    p.to_host = 2;
    p.to_addr = "0.0.0.0:8184".to_string();
    p.session = 100001;
    p.func = "func_rpc_test".to_string();
    p.args = args.to_string();
    ProtoType::RpcSend(p)
}

#[test]
fn rpc_buffered_dial_flushes_in_order() {
    // Host 1 sends three requests to host 2 before host 2 is reachable:
    // the first initiates the dial, all three are buffered, and on dial
    // completion they arrive in order.
    let mut hub = RpcClientHub::new(1);
    let mut gs = fresh_gs(1);

    assert!(hub.proceeding.get(2).is_none());
    match hub.on_message(&mut gs, MessageType::Rpc, 2, rpc_to_host_two("1")) {
        RpcRoute::Queued { dial, stored } => {
            assert_eq!(dial.as_deref(), Some("0.0.0.0:8184"));
            assert!(stored);
        }
        _ => panic!("first message must queue and dial"),
    }
    assert_eq!(hub.proceeding.get(2), Some(&DialPhase::Dialing));

    for args in ["2", "3"] {
        match hub.on_message(&mut gs, MessageType::Rpc, 2, rpc_to_host_two(args)) {
            RpcRoute::Queued { dial, stored } => {
                assert!(dial.is_none());
                assert!(stored);
            }
            _ => panic!("follow-ups must queue without dialing"),
        }
    }

    // The dial completes: the hub registers the sender and flushes.
    let (tx, mut rx) = tokio::sync::mpsc::channel(16);
    hub.on_connection(&mut gs, 2, tx);
    assert_eq!(hub.proceeding.get(2), Some(&DialPhase::Connected));
    assert!(gs.get_sender(2).is_some());

    for expect in ["1", "2", "3"] {
        match rx.try_recv().unwrap() {
            (MessageType::Rpc, 2, ProtoType::RpcSend(p)) => assert_eq!(p.args, expect),
            _ => panic!("flushed envelope has the wrong shape"),
        }
    }
    assert!(rx.try_recv().is_err());

    // With the connection live, the next message goes straight out.
    match hub.on_message(&mut gs, MessageType::Rpc, 2, rpc_to_host_two("4")) {
        RpcRoute::Forwarded => {}
        _ => panic!("live destination must forward"),
    }
    match rx.try_recv().unwrap() {
        (MessageType::Rpc, 2, ProtoType::RpcSend(p)) => assert_eq!(p.args, "4"),
        _ => panic!("forwarded envelope has the wrong shape"),
    }
}

#[test]
fn rpc_buffer_caps_at_five_hundred() {
    let mut hub = RpcClientHub::new(1);
    let mut gs = fresh_gs(1);
    for i in 0..500 {
        match hub.on_message(&mut gs, MessageType::Rpc, 2, rpc_to_host_two(&i.to_string())) {
            RpcRoute::Queued { stored, .. } => assert!(stored, "message {} must fit", i),
            _ => panic!("must queue"),
        }
    }
    // The 501st outbound message finds the buffer full and is dropped.
    match hub.on_message(&mut gs, MessageType::Rpc, 2, rpc_to_host_two("over")) {
        RpcRoute::Queued { stored, .. } => assert!(!stored),
        _ => panic!("must queue-and-drop"),
    }
    let pending = hub.take_pending(2);
    assert_eq!(pending.len(), 500);
    match &pending[0].2 {
        ProtoType::RpcSend(p) => assert_eq!(p.args, "0"),
        _ => panic!("wrong shape"),
    }
    match &pending[499].2 {
        ProtoType::RpcSend(p) => assert_eq!(p.args, "499"),
        _ => panic!("wrong shape"),
    }
}

#[test]
fn rpc_rejects_route_to_self() {
    let mut hub = RpcClientHub::new(2);
    let mut gs = fresh_gs(2);
    match hub.on_message(&mut gs, MessageType::Rpc, 2, rpc_to_host_two("x")) {
        RpcRoute::RejectedSelf => {}
        _ => panic!("a message to this host itself must be rejected"),
    }
    assert_eq!(hub.take_pending(2).len(), 0);
}

#[test]
fn rpc_message_without_address_clears_marker() {
    let mut hub = RpcClientHub::new(1);
    let mut gs = fresh_gs(1);
    // A Packet carries no dial target: it is buffered but no dial starts.
    let pto = ProtoType::Packet(cable::protos::Packet {
        proto_id: 400,
        name: String::new(),
        body: vec![1],
    });
    match hub.on_message(&mut gs, MessageType::Rpc, 2, pto) {
        RpcRoute::Queued { dial, stored } => {
            assert!(dial.is_none());
            assert!(stored);
        }
        _ => panic!("must queue without dialing"),
    }
    assert!(hub.proceeding.get(2).is_none());
}

#[test]
fn rpc_socket_closed_evicts() {
    let mut hub = RpcClientHub::new(1);
    let mut gs = fresh_gs(1);
    let (tx, _rx) = tokio::sync::mpsc::channel(4);
    hub.on_connection(&mut gs, 2, tx);
    assert!(gs.get_sender(2).is_some());
    let pto = ProtoType::Dummy(cable::protos::Dummy::default());
    match hub.on_message(&mut gs, MessageType::SocketClosed, 2, pto) {
        RpcRoute::Evicted => {}
        _ => panic!("close must evict"),
    }
    assert!(gs.get_sender(2).is_none());
    assert!(hub.proceeding.get(2).is_none());
}

#[test]
fn rpc_dial_failure_clears_marker_keeps_buffer() {
    let mut hub = RpcClientHub::new(1);
    let mut gs = fresh_gs(1);
    hub.on_message(&mut gs, MessageType::Rpc, 2, rpc_to_host_two("kept"));
    assert_eq!(hub.proceeding.get(2), Some(&DialPhase::Dialing));
    hub.on_dial_failed(2);
    assert!(hub.proceeding.get(2).is_none());
    let pending = hub.take_pending(2);
    assert_eq!(pending.len(), 1);
}

#[test]
fn rpc_unsupported_kind_dropped() {
    let mut hub = RpcClientHub::new(1);
    let mut gs = fresh_gs(1);
    let pto = ProtoType::Dummy(cable::protos::Dummy::default());
    match hub.on_message(&mut gs, MessageType::Tcp, 2, pto) {
        RpcRoute::Unsupported => {}
        _ => panic!("non-rpc kinds are not routed"),
    }
}
