//! The hubs: single-task event loops multiplexing announcements, inbound
//! traffic and timer ticks. The select loops themselves are the host's;
//! every decision they take is here.

use crate::config::Config;
use crate::logger::{Sink, build_logger};
use crate::message::ServiceType;
use crate::modules::Module;
use crate::states::GameState;
use crate::strutil::{is_i32_string, spec_i32_value};
use vstd::prelude::*;

pub mod game_hub;
pub mod rpc_client_hub;

verus! {

/// Whether the configuration holds a usable channel size under a key:
/// positive, and within the channel buffer cap.
pub open spec fn spec_cfg_positive(conf: Config, key: Seq<char>) -> bool {
    &&& conf.spec_map().dom().contains(key)
    &&& is_i32_string(conf.spec_map()[key])
    &&& 1 <= spec_i32_value(conf.spec_map()[key]) <= crate::message::MAX_CHANNEL_BUFFER as int
}

/// Build one hub's module: its envelope channel, its announce channel, and
/// a fresh game state, with channel sizes and this host's identity from
/// the configuration.
pub fn new_tcp_module(
    service_type: ServiceType,
    conf: Config,
    module_name: &str,
    log_name: &str,
    sink: &Sink,
) -> (r: Module)
    requires
        sink.has_sender(),
        conf.wf(),
        spec_cfg_positive(conf, "tcp_msg_chan_size"@),
        spec_cfg_positive(conf, "conn_chan_size"@),
        conf.spec_map().dom().contains("host_id"@) && is_i32_string(conf.spec_map()["host_id"@]),
        conf.spec_map().dom().contains("fps"@) ==> is_i32_string(conf.spec_map()["fps"@])
            && spec_i32_value(conf.spec_map()["fps"@]) > 0,
    ensures
        r.name@ == module_name@,
        r.smsender is Some,
        r.smreceiver is Some,
        r.smsender_chan is Some,
        r.smreceiver_chan is Some,
        r.game_state matches Some(gs) && gs.wf() && gs.rpc is None,
{
    let sender_size = conf.get_int("tcp_msg_chan_size").unwrap() as usize;
    let sender_chan_size = conf.get_int("conn_chan_size").unwrap() as usize;
    let host_id = conf.get_int("host_id").unwrap();
    let log = build_logger(sink, log_name);
    let gs = GameState::new(service_type, conf, host_id, log);
    Module::new(module_name.to_owned()).with_sender(sender_size).with_sender_chan(
        sender_chan_size,
    ).with_game_state(gs)
}

} // verus!
