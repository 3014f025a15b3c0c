//! The logger handle handed to users: a file path, a level, and a clone of
//! the sink's sender.

use crate::clock::now_timestamp_string;
use crate::logger::sink::{LogMsgType, log_send};
use crate::logger::{LogLevel, spec_level_rank};
use vstd::prelude::*;

verus! {

/// Every sunk line opens with `[timestamp][level]`, then the text.
pub open spec fn spec_log_line(ts: Seq<char>, lvl: Seq<char>, msg: Seq<char>) -> Seq<char> {
    seq!['['] + ts + seq![']'] + seq!['['] + lvl + seq![']'] + msg
}

/// Format one log line: `[timestamp][level]text`.
pub fn format_line(ts: &str, lvl: &str, msg: &str) -> (r: String)
    ensures
        r@ == spec_log_line(ts@, lvl@, msg@),
{
    let mut s = "[".to_owned();
    s.append(ts);
    s.append("]");
    s.append("[");
    s.append(lvl);
    s.append("]");
    s.append(msg);
    proof {
        reveal_strlit("[");
        reveal_strlit("]");
        assert(s@ =~= spec_log_line(ts@, lvl@, msg@));
    }
    s
}

/// A logger handle: its file path, its own threshold, and the sink sender
/// it forwards lines to (without one, lines go nowhere).
pub struct Outter {
    pub log_path: String,
    pub level: LogLevel,
    pub sinker: Option<std::sync::mpsc::Sender<LogMsgType>>,
}

impl Clone for Outter {
    fn clone(&self) -> (r: Self)
        ensures
            r.log_path@ == self.log_path@,
            r.level == self.level,
            r.has_sinker() == self.has_sinker(),
    {
        Outter {
            log_path: self.log_path.clone(),
            level: self.level,
            sinker: match &self.sinker {
                Some(s) => Some(crate::logger::sink::log_sender_clone(s)),
                None => None,
            },
        }
    }
}

impl Outter {
    /// Whether this handle has a sink sender.
    pub open spec fn has_sinker(&self) -> bool {
        self.sinker is Some
    }

    /// A handle writing under `log/`, at the chattiest level, with no sink
    /// sender yet.
    pub fn new(log_name: &str) -> (r: Self)
        ensures
            r.log_path@ == "log/"@ + log_name@,
            r.level == LogLevel::Debug,
            !r.has_sinker(),
    {
        let mut log_path = "log/".to_owned();
        log_path.append(log_name);
        Outter { log_path, level: LogLevel::Debug, sinker: None }
    }

    /// The handle with its threshold set.
    pub fn with_level(self, lvl: LogLevel) -> (r: Self)
        ensures
            r == (Outter { level: lvl, ..self }),
    {
        Outter { level: lvl, ..self }
    }

    /// The handle with its sink sender set.
    pub fn with_sinker(self, sinker: std::sync::mpsc::Sender<LogMsgType>) -> (r: Self)
        ensures
            r.log_path == self.log_path,
            r.level == self.level,
            r.has_sinker(),
    {
        Outter { sinker: Some(sinker), ..self }
    }

    /// The file path this handle writes under.
    pub fn get_path(&self) -> (r: &str)
        ensures
            r@ == self.log_path@,
    {
        self.log_path.as_str()
    }

    /// Set the threshold.
    pub fn set_level(&mut self, lvl: LogLevel)
        ensures
            *final(self) == (Outter { level: lvl, ..*old(self) }),
    {
        self.level = lvl;
    }

    /// The current threshold.
    pub fn get_level(&self) -> (r: LogLevel)
        ensures
            r == self.level,
    {
        self.level
    }

    /// Whether debug lines pass the threshold.
    pub fn can_log_debug(&self) -> (r: bool)
        ensures
            r == (spec_level_rank(LogLevel::Debug) >= spec_level_rank(self.level)),
    {
        LogLevel::Debug.to_int() >= self.level.to_int()
    }

    /// Whether warning lines pass the threshold.
    pub fn can_log_warning(&self) -> (r: bool)
        ensures
            r == (spec_level_rank(LogLevel::Warning) >= spec_level_rank(self.level)),
    {
        LogLevel::Warning.to_int() >= self.level.to_int()
    }

    /// Whether info lines pass the threshold.
    pub fn can_log_info(&self) -> (r: bool)
        ensures
            r == (spec_level_rank(LogLevel::Info) >= spec_level_rank(self.level)),
    {
        LogLevel::Info.to_int() >= self.level.to_int()
    }

    /// Whether error lines pass the threshold.
    pub fn can_log_error(&self) -> (r: bool)
        ensures
            r == (spec_level_rank(LogLevel::Error) >= spec_level_rank(self.level)),
    {
        LogLevel::Error.to_int() >= self.level.to_int()
    }

    /// Timestamp, format, and forward one line to the sink; a handle with
    /// no sink sender, or a sink whose drainer is gone, drops the line.
    pub fn log(&mut self, lvl: &str, logstr: &str) -> (sent: bool)
        ensures
            *final(self) == *old(self),
            !old(self).has_sinker() ==> !sent,
    {
        let timestr = now_timestamp_string();
        let nstr = format_line(timestr.as_str(), lvl, logstr);
        let fp = self.log_path.clone();
        match &self.sinker {
            Some(sinker) => log_send(sinker, fp, nstr),
            None => false,
        }
    }
}

} // verus!
