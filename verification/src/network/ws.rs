//! The WebSocket transport's verified core.

pub mod read;
pub mod write;
