//! Logging: per-handle levels, the formatted line shape, and the
//! process-wide sink the handles send into. The file-writing drainer is an
//! external collaborator; the core only formats and forwards.

use vstd::prelude::*;

pub mod hub;
pub mod outter;
pub mod sink;

pub use outter::Outter;
pub use sink::Sink;

verus! {

/// Log severity, ordered from chattiest to gravest.
#[derive(Debug, PartialEq, Eq, Hash, Clone, Copy, Structural)]
pub enum LogLevel {
    Debug,
    Warning,
    Info,
    Error,
}

/// The numeric rank of a level, as the configuration file writes it.
pub open spec fn spec_level_rank(l: LogLevel) -> int {
    match l {
        LogLevel::Debug => 1,
        LogLevel::Warning => 2,
        LogLevel::Info => 3,
        LogLevel::Error => 4,
    }
}

/// The level a numeric rank denotes; anything unrecognized is `Debug`.
pub open spec fn spec_level_of_rank(n: int) -> LogLevel {
    if n == 1 {
        LogLevel::Debug
    } else if n == 2 {
        LogLevel::Warning
    } else if n == 3 {
        LogLevel::Info
    } else if n == 4 {
        LogLevel::Error
    } else {
        LogLevel::Debug
    }
}

impl From<i32> for LogLevel {
    fn from(n: i32) -> (r: Self)
        ensures
            r == spec_level_of_rank(n as int),
    {
        match n {
            1 => LogLevel::Debug,
            2 => LogLevel::Warning,
            3 => LogLevel::Info,
            4 => LogLevel::Error,
            _ => LogLevel::Debug,
        }
    }
}

impl vstd::std_specs::convert::FromSpecImpl<i32> for LogLevel {
    open spec fn obeys_from_spec() -> bool {
        true
    }

    open spec fn from_spec(n: i32) -> Self {
        spec_level_of_rank(n as int)
    }
}

impl LogLevel {
    /// The numeric rank of this level.
    pub fn to_int(self) -> (r: i32)
        ensures
            r as int == spec_level_rank(self),
    {
        match self {
            LogLevel::Debug => 1,
            LogLevel::Warning => 2,
            LogLevel::Info => 3,
            LogLevel::Error => 4,
        }
    }
}

/// A logger handle carrying the sink's level and a clone of its sender.
/// The sink must have its channel set.
pub fn build_logger(sink: &Sink, log_name: &str) -> (r: Outter)
    requires
        sink.has_sender(),
    ensures
        r.log_path@ == "log/"@ + log_name@,
        r.level == sink.level,
        r.has_sinker(),
{
    let log_level = sink.get_level();
    let sender = sink.clone_sender().unwrap();
    Outter::new(log_name).with_level(log_level).with_sinker(sender)
}

} // verus!
