//! The drainer side of the sink; the file-writing loop itself is an
//! external collaborator, so only the sender hand-out lives here.

use crate::logger::Sink;
use crate::logger::sink::{self, LogMsgType};
use vstd::prelude::*;

verus! {

/// A fresh sender handle on the process-wide sink.
pub fn clone_sender(sink: &Sink) -> (r: Option<std::sync::mpsc::Sender<LogMsgType>>)
    ensures
        r is Some <==> sink.sender is Some,
{
    sink::clone_sender(sink)
}

} // verus!
