//! The accept loop's verified core: vfd allocation and the accept backoff
//! policy. Binding, accepting and spawning are I/O the host performs.

use crate::message::ServiceType;
use vstd::prelude::*;

verus! {

/// The first counter value; vfds below 100 are reserved for well-known
/// targets, and the first allocated vfd is 101.
pub const VFD_COUNTER_START: u64 = 100;

/// Ceiling of the accept backoff: a delay that would exceed this many
/// seconds surfaces the accept error as fatal.
pub const ACCEPT_BACKOFF_MAX_SECS: u64 = 64;

/// One allocation step: the counter advances by one and hands out its new
/// value.
pub open spec fn spec_alloc_vfd(pre: ServiceCore, post: ServiceCore, vfd: u64) -> bool {
    &&& post.counter == pre.counter + 1
    &&& vfd == post.counter
    &&& post.service_type == pre.service_type
    &&& post.service_addr == pre.service_addr
    &&& post.max_connection == pre.max_connection
}

/// What the accept loop does after a failed accept with the given backoff:
/// sleep that many seconds and double it, or give up past the ceiling.
pub open spec fn spec_backoff_step(backoff: u64) -> Option<(u64, u64)> {
    if backoff > ACCEPT_BACKOFF_MAX_SECS {
        None
    } else {
        Some((backoff, (2 * backoff) as u64))
    }
}

/// The service-owned state the accept loop decides with: its role, its
/// listening address, the admission cap, and the vfd counter.
pub struct ServiceCore {
    pub service_type: ServiceType,
    pub service_addr: String,
    pub max_connection: usize,
    pub counter: u64,
}

impl ServiceCore {
    /// A fresh service: the counter starts at 100, so the first connection
    /// gets vfd 101.
    pub fn new(service_type: ServiceType, service_addr: String, max_connection: usize) -> (r:
        ServiceCore)
        ensures
            r.service_type == service_type,
            r.service_addr == service_addr,
            r.max_connection == max_connection,
            r.counter == VFD_COUNTER_START,
    {
        ServiceCore { service_type, service_addr, max_connection, counter: VFD_COUNTER_START }
    }

    /// Allocate the next vfd.
    pub fn inc_counter(&mut self) -> (vfd: u64)
        requires
            old(self).counter < u64::MAX,
        ensures
            spec_alloc_vfd(*old(self), *final(self), vfd),
    {
        self.counter = self.counter + 1;
        self.counter
    }
}

/// On an accept error, the delay to sleep and the next backoff, or nothing
/// when the error is fatal. The accept loop starts each run at 1 second.
pub fn backoff_step(backoff: u64) -> (r: Option<(u64, u64)>)
    ensures
        r == spec_backoff_step(backoff),
{
    if backoff > ACCEPT_BACKOFF_MAX_SECS {
        None
    } else {
        Some((backoff, 2 * backoff))
    }
}

/// Law: vfds never repeat. Within one service, every allocation yields a
/// value strictly above the counter it started from, and two consecutive
/// allocations yield strictly increasing vfds, so over the service's
/// lifetime the allocated vfds are pairwise distinct and start at 101.
pub proof fn lemma_vfd_strictly_increasing(
    c0: ServiceCore,
    c1: ServiceCore,
    v1: u64,
    c2: ServiceCore,
    v2: u64,
)
    requires
        spec_alloc_vfd(c0, c1, v1),
        spec_alloc_vfd(c1, c2, v2),
    ensures
        c0.counter < v1 < v2,
        c0.counter >= VFD_COUNTER_START ==> v1 >= 101,
{
}

} // verus!
