//! Safe, ordered and throttled access to the embedded controller of a
//! laptop: the register operation model, the register batches that carry
//! operations out, the write rate limit, the framed protocol between clients
//! and the daemon that owns the hardware, and the feature descriptors for fan
//! mode, battery threshold, fan speeds and temperatures.

pub mod access;
pub mod bat;
pub mod cli;
pub mod client;
pub mod codec;
pub mod ec;
pub mod error;
pub mod fan_speed;
pub mod monitor;
pub mod rate_limit;
pub mod reading;
pub mod registers;
pub mod router;
pub mod server;
pub mod temp;
pub mod traits;
