//! The process-wide log sink: a level threshold and the channel every
//! logger handle clones its sender from. The caller owns the one `Sink`
//! and threads it through; an external drainer task empties the receiver.

use crate::logger::LogLevel;
use vstd::prelude::*;

verus! {

/// `std::sync::mpsc::Sender` as an opaque sending endpoint.
#[verifier::external_type_specification]
#[verifier::external_body]
#[verifier::reject_recursive_types(T)]
pub struct ExStdSender<T>(std::sync::mpsc::Sender<T>);

/// `std::sync::mpsc::Receiver` as an opaque receiving endpoint.
#[verifier::external_type_specification]
#[verifier::external_body]
#[verifier::reject_recursive_types(T)]
pub struct ExStdReceiver<T>(std::sync::mpsc::Receiver<T>);

/// One line on its way to the drainer: the log file's path and the
/// formatted text.
pub type LogMsgType = (String, String);

/// Relies on `std::sync::mpsc::channel`: a fresh unbounded channel pair.
#[verifier::external_body]
fn log_channel() -> (std::sync::mpsc::Sender<LogMsgType>, std::sync::mpsc::Receiver<LogMsgType>) {
    std::sync::mpsc::channel()
}

/// Relies on `std::sync::mpsc::Sender::clone`: another handle to the same
/// channel. Nothing is claimed of the value.
#[verifier::external_body]
pub fn log_sender_clone(s: &std::sync::mpsc::Sender<LogMsgType>) -> std::sync::mpsc::Sender<
    LogMsgType,
> {
    s.clone()
}

/// Relies on `std::sync::mpsc::Sender::send`: succeeds unless the receiver
/// is gone; either way it never blocks.
#[verifier::external_body]
pub fn log_send(s: &std::sync::mpsc::Sender<LogMsgType>, path: String, line: String) -> bool {
    s.send((path, line)).is_ok()
}

/// The sink: the global level, the channel ends, and the init-once flag.
pub struct Sink {
    pub level: LogLevel,
    pub sender: Option<std::sync::mpsc::Sender<LogMsgType>>,
    pub receiver: Option<std::sync::mpsc::Receiver<LogMsgType>>,
    pub init: bool,
}

impl Sink {
    /// Whether the channel has been set.
    pub open spec fn has_sender(&self) -> bool {
        self.sender is Some
    }

    /// A sink with no channel yet, at the chattiest level.
    pub fn new() -> (r: Self)
        ensures
            r.level == LogLevel::Debug,
            r.sender is None,
            r.receiver is None,
            !r.init,
    {
        Sink { level: LogLevel::Debug, sender: None, receiver: None, init: false }
    }

    /// Set the threshold below which lines are dropped.
    pub fn set_level(&mut self, lvl: LogLevel)
        ensures
            *final(self) == (Sink { level: lvl, ..*old(self) }),
    {
        self.level = lvl;
    }

    /// Create the sink's channel. The size is accepted for interface
    /// compatibility; the channel is unbounded.
    pub fn set_chan(&mut self, _log_chan_size: usize)
        ensures
            final(self).sender is Some,
            final(self).receiver is Some,
            final(self).level == old(self).level,
            final(self).init == old(self).init,
    {
        let (sender, receiver) = log_channel();
        self.sender = Some(sender);
        self.receiver = Some(receiver);
    }

    /// The current threshold.
    pub fn get_level(&self) -> (r: LogLevel)
        ensures
            r == self.level,
    {
        self.level
    }

    /// A fresh sender handle, if the channel is set.
    pub fn clone_sender(&self) -> (r: Option<std::sync::mpsc::Sender<LogMsgType>>)
        ensures
            r is Some <==> self.sender is Some,
    {
        match &self.sender {
            Some(s) => Some(log_sender_clone(s)),
            None => None,
        }
    }

    /// Hand out the receiver to the drainer; it can be taken once.
    pub fn take_receiver(&mut self) -> (r: Option<std::sync::mpsc::Receiver<LogMsgType>>)
        ensures
            (r is Some <==> old(self).receiver is Some),
            final(self).receiver is None,
            final(self).sender == old(self).sender,
            final(self).level == old(self).level,
            final(self).init == old(self).init,
    {
        self.receiver.take()
    }

    /// Whether the sink has been initialized.
    pub fn is_init(&self) -> (r: bool)
        ensures
            r == self.init,
    {
        self.init
    }

    /// Mark the sink initialized; it stays so.
    pub fn set_init(&mut self)
        ensures
            *final(self) == (Sink { init: true, ..*old(self) }),
    {
        self.init = true;
    }
}

/// Set the threshold of the process-wide sink.
pub fn set_global_log_level(sink: &mut Sink, lvl: LogLevel)
    ensures
        *final(sink) == (Sink { level: lvl, ..*old(sink) }),
{
    sink.set_level(lvl);
}

/// The threshold of the process-wide sink.
pub fn get_global_log_level(sink: &Sink) -> (r: LogLevel)
    ensures
        r == sink.level,
{
    sink.get_level()
}

/// Create the process-wide sink's channel.
pub fn set_chan(sink: &mut Sink, log_chan_size: usize)
    ensures
        final(sink).sender is Some,
        final(sink).receiver is Some,
        final(sink).level == old(sink).level,
        final(sink).init == old(sink).init,
{
    sink.set_chan(log_chan_size);
}

/// A fresh sender handle on the process-wide sink.
pub fn clone_sender(sink: &Sink) -> (r: Option<std::sync::mpsc::Sender<LogMsgType>>)
    ensures
        r is Some <==> sink.sender is Some,
{
    sink.clone_sender()
}

/// Hand the process-wide sink's receiver to the drainer.
pub fn take_receiver(sink: &mut Sink) -> (r: Option<std::sync::mpsc::Receiver<LogMsgType>>)
    ensures
        (r is Some <==> old(sink).receiver is Some),
        final(sink).receiver is None,
        final(sink).sender == old(sink).sender,
        final(sink).level == old(sink).level,
        final(sink).init == old(sink).init,
{
    sink.take_receiver()
}

/// Whether the process-wide sink has been initialized.
pub fn is_init(sink: &Sink) -> (r: bool)
    ensures
        r == sink.init,
{
    sink.is_init()
}

/// Mark the process-wide sink initialized.
pub fn set_init(sink: &mut Sink)
    ensures
        *final(sink) == (Sink { init: true, ..*old(sink) }),
{
    sink.set_init();
}

} // verus!
