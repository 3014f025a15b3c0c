//! The egress side of peer RPC: lazily dial peers keyed by destination
//! host id, buffer outbound traffic while a dial is in flight, and flush
//! the buffer in enqueue order once the connection is announced. The dial
//! itself is I/O the host performs; this state machine decides everything.

use crate::message::{MessageType, SMSender, SendFailure, SystemMsg, sm_try_send};
use crate::network::try_send_rpc;
use crate::protos::{ProtoType, spec_to_addr};
use crate::states::{Communicate, ConnRegistry, GameState};
use vstd::prelude::*;

verus! {

/// Cap on the messages buffered per destination while its dial is pending.
pub const MAX_DELAY_MSGS: usize = 500;

/// Where an outbound peer connection stands.
#[derive(Debug, Clone, Copy, PartialEq, Eq, Structural)]
pub enum DialPhase {
    Dialing,
    Connected,
}

/// What `on_message` decided for one outbound envelope.
pub enum RpcRoute {
    /// The destination is this host itself; rejected and dropped.
    RejectedSelf,
    /// A live connection took the message (or reported its failure).
    Forwarded,
    /// The message was queued: `dial` names an address to dial now, and
    /// `stored` says whether the buffer had room.
    Queued { dial: Option<String>, stored: bool },
    /// A closed connection was evicted.
    Evicted,
    /// A kind this hub does not route; dropped.
    Unsupported,
}

/// The RPC client hub's own state beside its connection registry: this
/// host's identity, the per-destination buffers, and the dial markers.
pub struct RpcClientHub {
    pub host_id: u64,
    pub delay_msg: ConnRegistry<Vec<SystemMsg>>,
    pub proceeding: ConnRegistry<DialPhase>,
}

impl RpcClientHub {
    /// Structural invariant: both maps well formed, and no buffer over cap.
    pub open spec fn wf(&self) -> bool {
        &&& self.delay_msg.wf()
        &&& self.proceeding.wf()
        &&& forall|k: u64|
            #[trigger] self.delay_msg.spec_map().dom().contains(k)
                ==> self.delay_msg.spec_map()[k]@.len() <= MAX_DELAY_MSGS as int
    }

    /// A fresh hub for this host, with nothing buffered and no dial open.
    pub fn new(host_id: u64) -> (r: Self)
        ensures
            r.wf(),
            r.host_id == host_id,
            r.delay_msg.spec_map() =~= Map::<u64, Vec<SystemMsg>>::empty(),
            r.proceeding.spec_map() =~= Map::<u64, DialPhase>::empty(),
    {
        RpcClientHub { host_id, delay_msg: ConnRegistry::new(), proceeding: ConnRegistry::new() }
    }

    /// Remove and hand back a destination's buffered messages, oldest
    /// first, in the order they were queued.
    pub fn take_pending(&mut self, session: u64) -> (r: Vec<SystemMsg>)
        requires
            old(self).wf(),
        ensures
            final(self).wf(),
            final(self).host_id == old(self).host_id,
            final(self).proceeding == old(self).proceeding,
            final(self).delay_msg.spec_map() == old(self).delay_msg.spec_map().remove(session),
            old(self).delay_msg.spec_map().dom().contains(session) ==> r@ == old(
                self,
            ).delay_msg.spec_map()[session]@,
            !old(self).delay_msg.spec_map().dom().contains(session) ==> r@ == Seq::<
                SystemMsg,
            >::empty(),
    {
        match self.delay_msg.take(session) {
            Some(v) => v,
            None => Vec::new(),
        }
    }

    /// A dial for `session` completed: mark it connected, register the new
    /// connection's sender with the hub's registry, and flush everything
    /// buffered for it through that sender, oldest first, with the same
    /// non-blocking send as live traffic: every buffered envelope is offered
    /// to the new sender once, stamped `Rpc`, in enqueue order.
    pub fn on_connection(&mut self, gs: &mut GameState, vfd: u64, sender: SMSender)
        requires
            old(self).wf(),
            old(gs).wf(),
        ensures
            final(self).wf(),
            final(gs).wf(),
            final(self).host_id == old(self).host_id,
            final(gs).conn_view() == old(gs).conn_view().insert(vfd, sender),
            final(gs).rpc == old(gs).rpc,
            final(gs).host_id == old(gs).host_id,
            final(gs).timer_state == old(gs).timer_state,
            final(self).proceeding.spec_map() == old(self).proceeding.spec_map().insert(
                vfd,
                DialPhase::Connected,
            ),
            final(self).delay_msg.spec_map() == old(self).delay_msg.spec_map().remove(vfd),
            ({
                let buffered = if old(self).delay_msg.spec_map().dom().contains(vfd) {
                    old(self).delay_msg.spec_map()[vfd]@
                } else {
                    Seq::<SystemMsg>::empty()
                };
                exists|outcomes: Seq<Result<(), SendFailure<SystemMsg>>>|
                    outcomes.len() == buffered.len() && (forall|i: int|
                        0 <= i < buffered.len() ==> #[trigger] call_ensures(
                            sm_try_send::<SystemMsg>,
                            (&sender, (MessageType::Rpc, buffered[i].1, buffered[i].2)),
                            outcomes[i],
                        ))
            }),
    {
        self.proceeding.register(vfd, DialPhase::Connected);
        let mut pending = self.take_pending(vfd);
        let ghost buffered = pending@;
        let ghost mut outcomes: Seq<Result<(), SendFailure<SystemMsg>>> = Seq::empty();
        let mut i: usize = 0;
        while pending.len() > 0
            invariant
                buffered.len() <= usize::MAX,
                i + pending@.len() == buffered.len(),
                pending@ =~= buffered.skip(i as int),
                outcomes.len() == i,
                forall|j: int|
                    0 <= j < i ==> #[trigger] call_ensures(
                        sm_try_send::<SystemMsg>,
                        (&sender, (MessageType::Rpc, buffered[j].1, buffered[j].2)),
                        outcomes[j],
                    ),
            decreases pending@.len(),
        {
            let (_mtype, session, pto) = pending.remove(0);
            proof {
                assert(session == buffered[i as int].1 && pto == buffered[i as int].2);
                assert(pending@ =~= buffered.skip(i + 1));
            }
            let ghost gpto = pto;
            let r = try_send_rpc(&sender, session, pto);
            proof {
                let o = choose|sr: Result<(), SendFailure<SystemMsg>>|
                    #[trigger] call_ensures(
                        sm_try_send::<SystemMsg>,
                        (&sender, (MessageType::Rpc, session, gpto)),
                        sr,
                    ) && (r is Ok <==> sr is Ok);
                outcomes = outcomes.push(o);
            }
            i = i + 1;
        }
        proof {
            assert(buffered.skip(i as int).len() == 0);
            assert(i as int == buffered.len());
        }
        gs.add_vfd(vfd, sender);
    }

    /// A dial for `session` failed: clear its dialing marker so the next
    /// message re-initiates the dial; whatever is buffered stays buffered.
    pub fn on_dial_failed(&mut self, session: u64)
        requires
            old(self).wf(),
        ensures
            final(self).wf(),
            final(self).host_id == old(self).host_id,
            final(self).delay_msg == old(self).delay_msg,
            final(self).proceeding.spec_map() == old(self).proceeding.spec_map().remove(session),
    {
        self.proceeding.unregister(session);
    }

    /// Route one outbound envelope.
    ///
    /// A message addressed to this host is rejected. An `Rpc` message goes
    /// straight out when the destination is live; otherwise it is buffered
    /// (up to the cap, else dropped), and when no dial is marked, a dial is
    /// initiated toward the address the message carries — a message that
    /// carries none clears the marker again. `SocketClosed` evicts the
    /// destination; any other kind is dropped.
    pub fn on_message(&mut self, gs: &mut GameState, msg_type: MessageType, session: u64, pto:
        ProtoType) -> (r: RpcRoute)
        requires
            old(self).wf(),
            old(gs).wf(),
        ensures
            final(self).wf(),
            final(gs).wf(),
            final(self).host_id == old(self).host_id,
            final(gs).rpc == old(gs).rpc,
            final(gs).host_id == old(gs).host_id,
            final(gs).timer_state == old(gs).timer_state,
            session == old(self).host_id ==> *final(self) == *old(self) && *final(gs) == *old(gs)
                && r matches RpcRoute::RejectedSelf,
            session != old(self).host_id && msg_type == MessageType::Rpc && old(
                gs,
            ).conn_view().dom().contains(session) ==> *final(self) == *old(self) && *final(gs)
                == *old(gs) && r matches RpcRoute::Forwarded,
            session != old(self).host_id && msg_type == MessageType::Rpc && !old(
                gs,
            ).conn_view().dom().contains(session) ==> {
                let marked = old(self).proceeding.spec_map().dom().contains(session);
                let addr = spec_to_addr(pto);
                let buffered = if old(self).delay_msg.spec_map().dom().contains(session) {
                    old(self).delay_msg.spec_map()[session]@
                } else {
                    Seq::<SystemMsg>::empty()
                };
                let room = buffered.len() < MAX_DELAY_MSGS as int;
                &&& *final(gs) == *old(gs)
                &&& (r matches RpcRoute::Queued { dial, stored } ==> {
                    &&& stored == room
                    &&& (dial is Some <==> !marked && addr.len() > 0)
                    &&& (dial matches Some(a) ==> a@ == addr)
                })
                &&& (r matches RpcRoute::Queued { .. })
                &&& (!marked && addr.len() > 0 ==> final(self).proceeding.spec_map() == old(
                    self,
                ).proceeding.spec_map().insert(session, DialPhase::Dialing))
                &&& (!(!marked && addr.len() > 0) ==> final(self).proceeding == old(
                    self,
                ).proceeding)
                &&& (room ==> final(self).delay_msg.spec_map() == old(
                    self,
                ).delay_msg.spec_map().insert(
                    session,
                    final(self).delay_msg.spec_map()[session],
                ) && final(self).delay_msg.spec_map()[session]@ == buffered.push(
                    (msg_type, session, pto),
                ))
                &&& (!room ==> final(self).delay_msg.spec_map() == old(self).delay_msg.spec_map())
            },
            session != old(self).host_id && msg_type == MessageType::SocketClosed ==> {
                &&& final(gs).conn_view() == old(gs).conn_view().remove(session)
                &&& final(self).proceeding.spec_map() == old(self).proceeding.spec_map().remove(
                    session,
                )
                &&& final(self).delay_msg == old(self).delay_msg
                &&& r matches RpcRoute::Evicted
            },
            session != old(self).host_id && !(msg_type == MessageType::Rpc || msg_type
                == MessageType::SocketClosed) ==> *final(self) == *old(self) && *final(gs) == *old(
                gs,
            ) && r matches RpcRoute::Unsupported,
    {
        if session == self.host_id {
            return RpcRoute::RejectedSelf;
        }
        match msg_type {
            MessageType::Rpc => {
                match gs.get_sender(session) {
                    Some(sender) => {
                        let _ = try_send_rpc(sender, session, pto);
                        return RpcRoute::Forwarded;
                    },
                    None => {},
                }
                let marked = self.proceeding.contains(session);
                let mut dial: Option<String> = None;
                if !marked {
                    let addr = pto.to_addr();
                    if !addr.as_str().is_empty() {
                        self.proceeding.register(session, DialPhase::Dialing);
                        dial = Some(addr);
                    }
                }
                let ghost pre_delay = self.delay_msg.spec_map();
                let mut list = match self.delay_msg.take(session) {
                    Some(v) => v,
                    None => Vec::new(),
                };
                let ghost buffered = list@;
                let stored: bool = if list.len() < MAX_DELAY_MSGS {
                    list.push((msg_type, session, pto));
                    true
                } else {
                    false
                };
                self.delay_msg.register(session, list);
                proof {
                    if !pre_delay.dom().contains(session) {
                        assert(pre_delay.remove(session) =~= pre_delay);
                    }
                    if !stored {
                        assert(pre_delay.remove(session).insert(session, old(
                            self,
                        ).delay_msg.spec_map()[session]) =~= pre_delay);
                    }
                }
                RpcRoute::Queued { dial, stored }
            },
            MessageType::SocketClosed => {
                gs.delete_vfd(session);
                self.proceeding.unregister(session);
                RpcRoute::Evicted
            },
            _ => RpcRoute::Unsupported,
        }
    }
}

} // verus!
