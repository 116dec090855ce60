//! Periodic acquisition of readings from a network sensor into a CSV log.
//!
//! The library holds the decisions of the poller and leaves the network and
//! the file system to its caller: when a tick fires, how a response body
//! becomes a reading, what text is appended to the log, and how the control
//! loop moves from one phase to the next.

pub mod clock;
pub mod csv_log;
pub mod decode;
pub mod json;
pub mod poller;
pub mod schedule;
pub mod text;
pub mod timestamp;
