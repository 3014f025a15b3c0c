//! Constants of the framed transport.

use vstd::prelude::*;

pub mod read;
pub mod service;
pub mod write;

verus! {

/// One frame header: protocol id (u32) plus total body length (u32), 8 bytes.
pub const PROTO_HEADER_LEN: usize = 8;

/// Upper bound on a frame body, header included in the budget.
pub const PROTO_BODY_MAX_LEN: usize = 10 * 1024 * 1024 - 8;

} // verus!
