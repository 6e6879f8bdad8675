//! Software watchdog multiplexer.
//!
//! Many independent cooperative tasks each register a liveness timer with a
//! single [`registry::WatchdogRegistry`]; a supervisory check decides whether
//! any of them has gone silent longer than its allotted interval, latches the
//! first detection, and exposes a replay-safe enumeration of the offending
//! nodes evaluated against the latched timestamp.

pub mod laws;
pub mod model;
pub mod registry;
pub mod time;
