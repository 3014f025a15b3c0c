//! Configuration, logging, numbers, the codec, backoff, backpressure, and
//! the writer guard.

use cable::config::Config;
use cable::error::Error;
use cable::logger::{LogLevel, Outter, Sink, build_logger};
use cable::message::{MessageType, ServiceType};
use cable::network::tcp::service::backoff_step;
use cable::network::tcp::read::{ReaderFlow, publish_msg};
use cable::network::tcp::write::{vfd_matches, writer_accepts};
use cable::network::{try_send, try_send_rpc};
use cable::protos::{ProtoType, RpcSend, decode, encode, escape_lua_bytes, proto_fits};
use cable::modules::{Module, ModuleManager};
use cable::states::{Communicate, GameState, TimerState};
use cable::strutil::{i32_to_string, parse_i32, u64_to_string};

#[test]
fn config_round_trip() {
    let conf = Config::empty()
        .with("host_id", "1")
        .with("fps", "10")
        .with("is_ws", "true")
        .with("service_addr", "0.0.0.0:8182");
    assert_eq!(conf.get_int("host_id"), Some(1));
    assert_eq!(conf.get_int("fps"), Some(10));
    assert_eq!(conf.get_int("absent"), None);
    assert!(conf.get_bool("is_ws"));
    assert!(!conf.get_bool("is_ssl"));
    assert_eq!(conf.get_string("service_addr").map(|s| s.as_str()), Some("0.0.0.0:8182"));
    // A later value replaces an earlier one under the same key.
    let conf = conf.with("fps", "20");
    assert_eq!(conf.get_int("fps"), Some(20));
}

#[test]
fn parse_i32_accepts_exactly_decimal_i32() {
    assert_eq!(parse_i32("0"), Some(0));
    assert_eq!(parse_i32("007"), Some(7));
    assert_eq!(parse_i32("+42"), Some(42));
    assert_eq!(parse_i32("-42"), Some(-42));
    assert_eq!(parse_i32("2147483647"), Some(i32::MAX));
    assert_eq!(parse_i32("-2147483648"), Some(i32::MIN));
    assert_eq!(parse_i32("2147483648"), None);
    assert_eq!(parse_i32("-2147483649"), None);
    assert_eq!(parse_i32(""), None);
    assert_eq!(parse_i32("+"), None);
    assert_eq!(parse_i32("1 2"), None);
    assert_eq!(parse_i32("12a"), None);
    assert_eq!(parse_i32(" 12"), None);
    assert_eq!(parse_i32("9999999999999999999999"), None);
}

#[test]
fn number_rendering() {
    assert_eq!(u64_to_string(0), "0");
    assert_eq!(u64_to_string(12345), "12345");
    assert_eq!(u64_to_string(u64::MAX), "18446744073709551615");
    assert_eq!(i32_to_string(-42), "-42");
    assert_eq!(i32_to_string(7), "7");
    assert_eq!(i32_to_string(i32::MIN), "-2147483648");
}

#[test]
fn log_levels() {
    assert_eq!(LogLevel::from(1), LogLevel::Debug);
    assert_eq!(LogLevel::from(4), LogLevel::Error);
    assert_eq!(LogLevel::from(9), LogLevel::Debug);
    assert_eq!(LogLevel::Info.to_int(), 3);
    let o = Outter::new("a.log").with_level(LogLevel::Info);
    assert_eq!(o.get_path(), "log/a.log");
    assert!(!o.can_log_debug());
    assert!(!o.can_log_warning());
    assert!(o.can_log_info());
    assert!(o.can_log_error());
}

#[test]
fn sink_and_logger_flow() {
    let mut sink = Sink::new();
    assert!(!sink.is_init());
    sink.set_init();
    assert!(sink.is_init());
    cable::logger::sink::set_global_log_level(&mut sink, LogLevel::Warning);
    assert_eq!(cable::logger::sink::get_global_log_level(&sink), LogLevel::Warning);
    assert!(cable::logger::hub::clone_sender(&sink).is_none());
    cable::logger::sink::set_chan(&mut sink, 64);
    assert!(cable::logger::hub::clone_sender(&sink).is_some());

    let mut log = build_logger(&sink, "svc.log");
    assert_eq!(log.get_path(), "log/svc.log");
    assert_eq!(log.get_level(), LogLevel::Warning);
    let rx = cable::logger::sink::take_receiver(&mut sink).unwrap();
    assert!(log.log("info", "hello"));
    let (path, line) = rx.recv().unwrap();
    assert_eq!(path, "log/svc.log");
    assert!(line.starts_with('['));
    assert!(line.ends_with("][info]hello"));
    // Once the drainer is gone the send reports failure.
    drop(rx);
    assert!(!log.log("info", "late"));
}

#[test]
fn format_line_shape() {
    let line = cable::logger::outter::format_line("2024-01-02 03:04:05.000001", "warn", "boom");
    assert_eq!(line, "[2024-01-02 03:04:05.000001][warn]boom");
}

#[test]
fn service_type_names() {
    assert_eq!(ServiceType::from("game_service"), ServiceType::TCP);
    assert_eq!(ServiceType::from("rpc_service"), ServiceType::RPC);
    assert_eq!(ServiceType::from("rpc_client_service"), ServiceType::RPCCLIENT);
    assert_eq!(ServiceType::from("robot_service"), ServiceType::TCPROBOT);
    assert_eq!(ServiceType::from("db_service"), ServiceType::DB);
    assert_eq!(ServiceType::from("whatever"), ServiceType::UNKNOW);
    assert_eq!(ServiceType::RPCCLIENT.to_name(), "rpc_client_service");
    assert_eq!(ServiceType::UNKNOW.to_name(), "unknow_service");
}

#[test]
fn writer_guard_table() {
    // A TCP writer forwards only Tcp.
    assert!(writer_accepts(ServiceType::TCP, MessageType::Tcp));
    assert!(!writer_accepts(ServiceType::TCP, MessageType::Rpc));
    assert!(!writer_accepts(ServiceType::TCP, MessageType::RpcClient));
    // The RPC roles forward Rpc or RpcClient.
    assert!(writer_accepts(ServiceType::RPC, MessageType::Rpc));
    assert!(writer_accepts(ServiceType::RPC, MessageType::RpcClient));
    assert!(writer_accepts(ServiceType::RPCCLIENT, MessageType::Rpc));
    assert!(writer_accepts(ServiceType::RPCCLIENT, MessageType::RpcClient));
    assert!(!writer_accepts(ServiceType::RPC, MessageType::Tcp));
    // Every other role refuses everything.
    assert!(!writer_accepts(ServiceType::DB, MessageType::Tcp));
    assert!(!writer_accepts(ServiceType::TCPROBOT, MessageType::Tcp));
    assert!(!writer_accepts(ServiceType::UNKNOW, MessageType::Dummy));
    // The vfd check: exact match, and well-known targets on WebSocket only.
    assert!(vfd_matches(101, 101, false));
    assert!(!vfd_matches(101, 102, false));
    assert!(!vfd_matches(101, 1, false));
    assert!(vfd_matches(101, 1, true));
    assert!(!vfd_matches(101, 102, true));
}

#[test]
fn accept_backoff_delays() {
    // Three failures sleep 1 s, 2 s, 4 s; a success resets the loop, which
    // starts again at 1 s on the next failure.
    let mut backoff: u64 = 1;
    let mut delays = Vec::new();
    for _ in 0..3 {
        let (sleep, next) = backoff_step(backoff).unwrap();
        delays.push(sleep);
        backoff = next;
    }
    assert_eq!(delays, vec![1, 2, 4]);
    // Past the ceiling the error is fatal.
    assert_eq!(backoff_step(64), Some((64, 128)));
    assert_eq!(backoff_step(128), None);
}

#[test]
fn backpressure_try_send_never_blocks() {
    // A hub channel of capacity 3 takes 3 envelopes; the next 2 are
    // dropped with an error naming the full channel and the envelope,
    // without blocking; after the hub drains one, the next send succeeds.
    let (tx, mut rx) = tokio::sync::mpsc::channel(3);
    let dummy = || ProtoType::Dummy(cable::protos::Dummy::default());
    let mut dropped = 0;
    for _ in 0..5 {
        match try_send(&tx, 101, dummy()) {
            Ok(()) => {}
            Err(Error::Message(m)) => {
                assert_eq!(m, "[try_send]: send=chan_full,vfd=101,proto_id=0,name=Dummy");
                dropped += 1;
            }
            Err(_) => panic!("send failures are Message errors"),
        }
    }
    assert_eq!(dropped, 2);
    rx.try_recv().unwrap();
    assert!(try_send_rpc(&tx, 101, dummy()).is_ok());
    // A closed channel reports an error naming the closed channel.
    drop(rx);
    match try_send(&tx, 101, dummy()) {
        Err(Error::Message(m)) => {
            assert_eq!(m, "[try_send]: send=chan_closed,vfd=101,proto_id=0,name=Dummy");
        }
        _ => panic!("a closed channel must fail the send"),
    }
}

#[test]
fn reader_publish_policy() {
    // The reader never blocks on the hub channel: a full channel drops the
    // envelope and continues; only a closed channel stops the reader.
    let (tx, rx) = tokio::sync::mpsc::channel(1);
    let dummy = || (MessageType::Tcp, 101u64, ProtoType::Dummy(cable::protos::Dummy::default()));
    assert_eq!(publish_msg(&tx, dummy()), ReaderFlow::Continue);
    // The channel is now full; the next envelope is dropped, not blocked on.
    assert_eq!(publish_msg(&tx, dummy()), ReaderFlow::Continue);
    drop(rx);
    assert_eq!(publish_msg(&tx, dummy()), ReaderFlow::Stop);
}

#[test]
fn proto_fits_ordinary_messages() {
    let mut p = RpcSend::default();
    p.from_addr = "0.0.0.0:8182".to_string();
    assert!(proto_fits(&ProtoType::RpcSend(p)));
    assert!(proto_fits(&ProtoType::Dummy(cable::protos::Dummy::default())));
    assert!(proto_fits(&ProtoType::Packet(cable::protos::Packet {
        proto_id: 101,
        name: String::new(),
        body: vec![1, 2, 3],
    })));
}

#[test]
fn rpc_codec_round_trip() {
    let mut p = RpcSend::default();
    p.from_host = -3;
    p.from_addr = "0.0.0.0:8182".to_string();
    p.to_host = 2;
    p.to_addr = "0.0.0.0:8184".to_string();
    p.session = 100001;
    p.func = "func_rpc_test".to_string();
    p.args = "11,22,33".to_string();
    let body = encode(ProtoType::RpcSend(p.clone())).unwrap();
    match decode(1, body.as_slice()).unwrap() {
        ProtoType::RpcSend(q) => {
            assert_eq!(q.from_host, -3);
            assert_eq!(q.from_addr, p.from_addr);
            assert_eq!(q.to_host, 2);
            assert_eq!(q.to_addr, p.to_addr);
            assert_eq!(q.session, 100001);
            assert_eq!(q.func, p.func);
            assert_eq!(q.args, p.args);
        }
        _ => panic!("tag 1 decodes to a request"),
    }
    // The response tag decodes the same shape.
    assert!(matches!(decode(2, body.as_slice()).unwrap(), ProtoType::RpcResp(_)));
    // Garbage is rejected.
    assert!(decode(1, &[1, 2, 3]).is_err());
    // The placeholder accepts only an empty body.
    assert!(decode(0, &[]).is_ok());
    assert!(decode(0, &[1]).is_err());
    // Unknown tags pass through as packets.
    match decode(101, &[1, 2, 3]).unwrap() {
        ProtoType::Packet(q) => {
            assert_eq!(q.proto_id, 101);
            assert_eq!(q.body, vec![1, 2, 3]);
        }
        _ => panic!("unknown tags pass through"),
    }
}

#[test]
fn lua_string_escaping() {
    assert_eq!(escape_lua_bytes(b"abc"), b"\"abc\"".to_vec());
    assert_eq!(escape_lua_bytes(b"a\"b"), b"\"a\\\"b\"".to_vec());
    assert_eq!(escape_lua_bytes(b"a\\b"), b"\"a\\\\b\"".to_vec());
    assert_eq!(escape_lua_bytes(b"a\nb"), b"\"a\\\nb\"".to_vec());
    assert_eq!(escape_lua_bytes(b"a\rb"), b"\"a\\rb\"".to_vec());
    assert_eq!(escape_lua_bytes(b"a\0b"), b"\"a\\000b\"".to_vec());
}

#[test]
fn error_descriptions() {
    assert_eq!(Error::message("boom").describe(), "Message { boom }");
    assert_eq!(Error::FileNotExist.describe(), "FileNotExist");
    let e = Error::Feedback((7, "denied".to_string()));
    assert_eq!(e.describe(), "Feedback { id=7,msg=denied }");
    let io = Error::from(std::io::Error::new(std::io::ErrorKind::Other, "io boom"));
    assert!(io.describe().starts_with("IoError { "));
}

#[test]
fn module_manager_names_unique() {
    let mut mm = ModuleManager::new();
    assert!(mm.register(Module::new("tcp_module".to_string())));
    assert!(!mm.register(Module::new("tcp_module".to_string())));
    assert!(mm.register(Module::new("rpc_module".to_string())));
}

#[test]
fn module_channels_carry_envelopes() {
    let m = Module::new("tcp_module".to_string()).with_sender(4).with_sender_chan(4);
    let tx = m.spawn_smsender();
    let mut m = m;
    let mut rx = m.take_smreceiver().unwrap();
    assert!(m.take_smreceiver().is_none());
    let dummy = ProtoType::Dummy(cable::protos::Dummy::default());
    try_send(&tx, 5, dummy).unwrap();
    let (kind, vfd, _) = rx.try_recv().unwrap();
    assert_eq!(kind, MessageType::Tcp);
    assert_eq!(vfd, 5);
}

#[test]
fn registry_reregister_replaces_sender() {
    let mut gs = GameState::new(ServiceType::TCP, Config::empty(), 1, Outter::new("g.log"));
    let (tx1, mut rx1) = tokio::sync::mpsc::channel(4);
    let (tx2, mut rx2) = tokio::sync::mpsc::channel(4);
    gs.add_vfd(101, tx1);
    gs.add_vfd(101, tx2);
    let dummy = ProtoType::Dummy(cable::protos::Dummy::default());
    try_send(gs.get_sender(101).unwrap(), 101, dummy).unwrap();
    assert!(rx1.try_recv().is_err());
    assert!(rx2.try_recv().is_ok());
}

#[test]
fn timer_timeout_saturates_at_the_top() {
    let mut ts = TimerState::new(10);
    let id = ts.add_timer_at(i64::MAX - 10, 100, 0);
    assert_eq!(id, 1);
    assert!(ts.update(i64::MAX - 1).is_none());
    assert_eq!(ts.update(i64::MAX).unwrap(), vec![1u64]);
}
