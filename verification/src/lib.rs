//! A live host-telemetry engine: stateful delta-based sampling of CPU,
//! memory and network counters, a start/stop-able periodic refresh
//! scheduler with immediate first tick and prompt cancellation, a
//! privileged-context capability token, and a recovery policy for shared
//! mutable state.
//!
//! Fractional quantities are held in fixed point (tenths or hundredths of
//! the displayed unit), so every computation is exact and fully specified.
//! The OS gauges themselves are read through a small trusted boundary to
//! the `sysinfo` crate; everything computed from them is verified.

pub mod launch;
pub mod metrics;
pub mod net;
pub mod scheduler;
pub mod store;
pub mod sysread;
pub mod types;
pub mod units;
