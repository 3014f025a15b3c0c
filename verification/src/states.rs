//! Per-hub state: connection registries, game state, and the timer scheduler.

use vstd::prelude::*;

pub mod game_state;
pub mod registry;
pub mod tcp_state;
pub mod timer_state;

pub use game_state::GameState;
pub use registry::ConnRegistry;
pub use tcp_state::TcpState;
pub use timer_state::TimerState;

verus! {

/// What a holder of live connections offers its hub: registering, evicting
/// and looking up the outbound endpoint of a connection by its vfd.
pub trait Communicate<T> {
    /// The holder's structural invariant.
    spec fn conn_wf(&self) -> bool;

    /// The vfd-to-endpoint mapping held.
    spec fn conn_view(&self) -> Map<u64, T>;

    /// Register a connection's endpoint; a previous one under the same vfd
    /// is replaced.
    fn register(&mut self, vfd: u64, sender: T)
        requires
            old(self).conn_wf(),
        ensures
            final(self).conn_wf(),
            final(self).conn_view() == old(self).conn_view().insert(vfd, sender),
    ;

    /// Evict a connection; an absent vfd is ignored.
    fn unregister(&mut self, vfd: u64)
        requires
            old(self).conn_wf(),
        ensures
            final(self).conn_wf(),
            final(self).conn_view() == old(self).conn_view().remove(vfd),
    ;

    /// The endpoint registered for a vfd.
    fn get(&self, vfd: u64) -> (r: Option<&T>)
        requires
            self.conn_wf(),
        ensures
            r matches Some(t) ==> self.conn_view().dom().contains(vfd) && *t
                == self.conn_view()[vfd],
            r is None ==> !self.conn_view().dom().contains(vfd),
    ;
}

} // verus!
