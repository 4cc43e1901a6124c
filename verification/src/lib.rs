//! An RTR client unit: it keeps a local replica of the validated payload
//! that a remote server announces, and hands every change on downstream.
//!
//! The crate holds the parts of the unit that decide and compute: the
//! payload sets and diffs, the accumulator that a protocol session fills
//! record by record, and the supervisor that steers connecting, streaming
//! and waiting. Sockets, timers and the control channel are the caller's.

pub mod comms;
pub mod metrics;
pub mod payload;
pub mod session;
pub mod units;
