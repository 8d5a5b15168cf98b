//! Raw-mode terminal sessions: the configuration arithmetic that switches a
//! terminal between cooked and raw line discipline, and the byte-at-a-time
//! key loop that runs on top of it.

pub mod config;
pub mod error;
pub mod keys;
pub mod platform;
pub mod session;
