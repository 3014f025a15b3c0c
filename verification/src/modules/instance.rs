//! One module: a named bundle of the envelope channel, the announce
//! channel, and the game state its hub will own.

use crate::message::{MAX_CHANNEL_BUFFER, SMReceiver, SMReceiverChan, SMSender, SMSenderChan,
    sm_channel, sm_sender_clone};
use crate::states::GameState;
use vstd::prelude::*;

verus! {

/// A named bundle of hub ingredients; the builders fill it in, the hub
/// takes the pieces out.
pub struct Module {
    pub name: String,
    pub smsender: Option<SMSender>,
    pub smreceiver: Option<SMReceiver>,
    pub smsender_chan: Option<SMSenderChan>,
    pub smreceiver_chan: Option<SMReceiverChan>,
    pub game_state: Option<GameState>,
}

impl Module {
    /// An empty module under the given name.
    pub fn new(module_name: String) -> (r: Self)
        ensures
            r.name == module_name,
            r.smsender is None,
            r.smreceiver is None,
            r.smsender_chan is None,
            r.smreceiver_chan is None,
            r.game_state is None,
    {
        Module {
            name: module_name,
            smsender: None,
            smreceiver: None,
            smsender_chan: None,
            smreceiver_chan: None,
            game_state: None,
        }
    }

    /// The module's name.
    pub fn name(&self) -> (r: &str)
        ensures
            r@ == self.name@,
    {
        self.name.as_str()
    }

    /// The module with a fresh bounded envelope channel.
    pub fn with_sender(self, sender_size: usize) -> (r: Self)
        requires
            1 <= sender_size <= MAX_CHANNEL_BUFFER,
        ensures
            r.smsender is Some,
            r.smreceiver is Some,
            r.name == self.name,
            r.smsender_chan == self.smsender_chan,
            r.smreceiver_chan == self.smreceiver_chan,
            r.game_state == self.game_state,
    {
        let (sender, receiver) = sm_channel(sender_size);
        Module { smsender: Some(sender), smreceiver: Some(receiver), ..self }
    }

    /// The module with a fresh bounded announce channel.
    pub fn with_sender_chan(self, sender_chan_size: usize) -> (r: Self)
        requires
            1 <= sender_chan_size <= MAX_CHANNEL_BUFFER,
        ensures
            r.smsender_chan is Some,
            r.smreceiver_chan is Some,
            r.name == self.name,
            r.smsender == self.smsender,
            r.smreceiver == self.smreceiver,
            r.game_state == self.game_state,
    {
        let (sender, receiver) = sm_channel(sender_chan_size);
        Module { smsender_chan: Some(sender), smreceiver_chan: Some(receiver), ..self }
    }

    /// The module with its game state attached.
    pub fn with_game_state(self, gs: GameState) -> (r: Self)
        ensures
            r.game_state == Some(gs),
            r.name == self.name,
            r.smsender == self.smsender,
            r.smreceiver == self.smreceiver,
            r.smsender_chan == self.smsender_chan,
            r.smreceiver_chan == self.smreceiver_chan,
    {
        Module { game_state: Some(gs), ..self }
    }

    /// A fresh handle on the envelope channel's sending end.
    pub fn spawn_smsender(&self) -> SMSender
        requires
            self.smsender is Some,
    {
        sm_sender_clone(self.smsender.as_ref().unwrap())
    }

    /// Hand out the envelope channel's receiving end; it can be taken once.
    pub fn take_smreceiver(&mut self) -> (r: Option<SMReceiver>)
        ensures
            (r is Some <==> old(self).smreceiver is Some),
            final(self).smreceiver is None,
            final(self).name == old(self).name,
            final(self).smsender == old(self).smsender,
            final(self).smsender_chan == old(self).smsender_chan,
            final(self).smreceiver_chan == old(self).smreceiver_chan,
            final(self).game_state == old(self).game_state,
    {
        self.smreceiver.take()
    }

    /// A fresh handle on the announce channel's sending end.
    pub fn spawn_smsender_chan(&self) -> SMSenderChan
        requires
            self.smsender_chan is Some,
    {
        sm_sender_clone(self.smsender_chan.as_ref().unwrap())
    }

    /// Hand out the announce channel's receiving end; it can be taken once.
    pub fn take_smreceiver_chan(&mut self) -> (r: Option<SMReceiverChan>)
        ensures
            (r is Some <==> old(self).smreceiver_chan is Some),
            final(self).smreceiver_chan is None,
            final(self).name == old(self).name,
            final(self).smsender == old(self).smsender,
            final(self).smreceiver == old(self).smreceiver,
            final(self).smsender_chan == old(self).smsender_chan,
            final(self).game_state == old(self).game_state,
    {
        self.smreceiver_chan.take()
    }

    /// Hand out the game state; it can be taken once.
    pub fn take_game_state(&mut self) -> (r: Option<GameState>)
        ensures
            r == old(self).game_state,
            final(self).game_state is None,
            final(self).name == old(self).name,
            final(self).smsender == old(self).smsender,
            final(self).smreceiver == old(self).smreceiver,
            final(self).smsender_chan == old(self).smsender_chan,
            final(self).smreceiver_chan == old(self).smreceiver_chan,
    {
        self.game_state.take()
    }
}

} // verus!
