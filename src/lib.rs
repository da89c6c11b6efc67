//! Multiplexer-aware I2C transaction server: device addressing and wire
//! headers, the hardware and multiplexer driver interfaces, the per-bus
//! multiplexer cache with its fault recovery, request dispatch and slave mode.

pub mod types;
pub mod marshal;
pub mod hardware;
pub mod mux;
pub mod topology;
pub mod dispatch;
pub mod mock;
pub mod slave;
pub mod client;
pub mod digest;
pub mod service;
