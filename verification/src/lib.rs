//! A broker-to-client fan-out bridge: broker publications are decoded,
//! pushed through a bounded multi-subscriber broadcast channel, and forwarded
//! to every authenticated client connection, while each connection answers a
//! lightweight liveness probe.

pub mod channel;
pub mod config;
pub mod connection;
pub mod frames;
pub mod json;
pub mod listener;
pub mod messages;
