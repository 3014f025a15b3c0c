//! Connection-oriented game server networking core: framing, per-connection
//! reader/writer decision logic, hubs, RPC client buffering, and a tick-driven
//! timer scheduler, with machine-checked contracts.

pub mod clock;
pub mod config;
pub mod error;
pub mod logger;
pub mod message;
pub mod modules;
pub mod network;
pub mod protos;
pub mod services;
pub mod states;
pub mod strutil;

pub use error::Error;
