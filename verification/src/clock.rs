//! Wall-clock readings, taken through the `chrono` crate.

use vstd::prelude::*;

verus! {

/// Relies on chrono's `Local::now().timestamp_millis()`: the current time as
/// non-leap milliseconds since the Unix epoch. Nothing can be promised of the
/// value; callers must hold for every reading.
#[verifier::external_body]
pub fn now_millis() -> i64 {
    chrono::Local::now().timestamp_millis()
}

/// Relies on chrono's `format`: the current local time rendered as
/// `YYYY-MM-DD HH:MM:SS.ffffff`, the stamp every log line opens with.
/// Nothing can be promised of the value.
#[verifier::external_body]
pub fn now_timestamp_string() -> String {
    chrono::Local::now().format("%Y-%m-%d %H:%M:%S%.6f").to_string()
}

} // verus!
