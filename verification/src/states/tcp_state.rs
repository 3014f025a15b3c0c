//! The client-facing connection registry a hub owns.

use crate::message::SMSender;
use crate::states::{Communicate, ConnRegistry};
use vstd::prelude::*;

verus! {

/// Holds the outbound channel of every live client connection, keyed by
/// vfd.
pub struct TcpState {
    pub conn_map: ConnRegistry<SMSender>,
}

impl TcpState {
    /// An empty registry.
    pub fn new() -> (r: Self)
        ensures
            r.conn_wf(),
            r.conn_view() =~= Map::<u64, SMSender>::empty(),
    {
        TcpState { conn_map: ConnRegistry::new() }
    }
}

impl Communicate<SMSender> for TcpState {
    open spec fn conn_wf(&self) -> bool {
        self.conn_map.wf()
    }

    open spec fn conn_view(&self) -> Map<u64, SMSender> {
        self.conn_map.spec_map()
    }

    fn register(&mut self, vfd: u64, sender: SMSender) {
        self.conn_map.register(vfd, sender);
    }

    fn unregister(&mut self, vfd: u64) {
        self.conn_map.unregister(vfd);
    }

    fn get(&self, vfd: u64) -> (r: Option<&SMSender>) {
        self.conn_map.get(vfd)
    }
}

} // verus!
