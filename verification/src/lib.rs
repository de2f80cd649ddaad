//! Verified core of a TCP-over-WebSocket tunnel.
//!
//! The library decides; the programs around it perform. Every state machine
//! here is a function from a state and an event to effects and a next wait,
//! and every frame of the wire protocol is built and read here.

pub mod bridge;
pub mod cli;
pub mod client;
pub mod config;
pub mod dispatch;
pub mod endpoint;
pub mod mapping;
pub mod message;
pub mod pool;
pub mod protocol;
pub mod server;
pub mod text;
pub mod tunnel;
