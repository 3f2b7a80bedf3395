//! Accumulated execution-time split of one span.

use vstd::prelude::*;

verus! {

/// The timing snapshot taken when a span closes: wall-clock start and end
/// instants (nanoseconds since the epoch) and the cumulative busy/idle
/// nanoseconds accumulated over all enter/exit cycles of the span.
#[derive(Debug, Clone, Copy)]
pub struct Timings {
    /// Wall-clock instant at which the span was created, in nanoseconds.
    pub start_time: u64,
    /// Wall-clock instant of the span's last exit, in nanoseconds.
    pub end_time: u64,
    /// Nanoseconds the span spent actively executing.
    pub busy: u64,
    /// Nanoseconds the span spent suspended while open.
    pub idle: u64,
}

} // verus!
