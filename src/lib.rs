//! Control-plane bridge between a callback-driven native pipeline and the
//! channel-based session pipeline: packet types, the channel registry, the
//! callback adapters, the statistics sink, the periodic-log limiter, the
//! lifecycle coordinator, device-property conversion and path hashing.

pub mod packets;
pub mod channels;
pub mod registry;
pub mod statistics;
pub mod bridge;
pub mod periodic_log;
pub mod lifecycle;
pub mod openvr_prop;
pub mod path_hash;
