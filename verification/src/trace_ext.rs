//! Per-span mutable tracing state: the span's telemetry representation, the
//! already-finished child spans, and the busy/idle timing accumulator.

use vstd::prelude::*;

use crate::protocol::{spans_v, SpanV, TelemetrySpan};
use crate::timings::Timings;

verus! {

/// The tracing extension of one live span.
///
/// Monotonic instants (`last`) and wall-clock instants (`first`, `last_sys`)
/// are kept side by side: monotonic time yields exact busy/idle deltas, while
/// wall time is captured redundantly at each transition because a monotonic
/// clock cannot be translated to a UTC-comparable instant directly.
pub struct TraceExt {
    /// This span's telemetry representation.
    pub span: TelemetrySpan,
    /// Already-closed child telemetry spans, completion order.
    pub spans: Vec<TelemetrySpan>,
    /// Nanoseconds spent suspended while open.
    pub idle: u64,
    /// Nanoseconds spent actively executing.
    pub busy: u64,
    /// Monotonic instant of the last enter/exit transition, nanoseconds.
    pub last: u64,
    /// Wall-clock instant at creation, nanoseconds since the epoch.
    pub first: u64,
    /// Wall-clock instant of the last exit, nanoseconds since the epoch.
    pub last_sys: u64,
    /// Monotonic instant at creation; carried only for specification.
    pub first_mono: Ghost<u64>,
}

/// The mathematical value of a `TraceExt`.
pub struct ExtV {
    pub span: SpanV,
    pub spans: Seq<SpanV>,
    pub idle: u64,
    pub busy: u64,
    pub last: u64,
    pub first: u64,
    pub last_sys: u64,
    pub first_mono: u64,
}

impl View for TraceExt {
    type V = ExtV;

    open spec fn view(&self) -> ExtV {
        ExtV {
            span: self.span@,
            spans: spans_v(self.spans@),
            idle: self.idle,
            busy: self.busy,
            last: self.last,
            first: self.first,
            last_sys: self.last_sys,
            first_mono: self.first_mono@,
        }
    }
}

/// The timing accumulator never loses time: everything since creation is
/// split exactly between `busy`, `idle` and the still-open interval since
/// the last transition.
pub open spec fn ext_wf(e: ExtV) -> bool {
    &&& e.first_mono <= e.last
    &&& e.busy + e.idle == e.last - e.first_mono
}

/// The accumulator after an enter: the interval since the last transition
/// was spent suspended, and the span's start timestamp is restamped.
pub open spec fn enter_ext(e: ExtV, now: u64, wall: u64) -> ExtV {
    ExtV {
        span: SpanV { start_timestamp: wall, ..e.span },
        idle: (e.idle + (now - e.last)) as u64,
        last: now,
        ..e
    }
}

/// The accumulator after an exit: the interval since the last transition was
/// spent executing, and the end timestamps are stamped.
pub open spec fn exit_ext(e: ExtV, now: u64, wall: u64) -> ExtV {
    ExtV {
        span: SpanV { timestamp: Some(wall), ..e.span },
        busy: (e.busy + (now - e.last)) as u64,
        last: now,
        last_sys: wall,
        ..e
    }
}

/// Idle time as folded one final time when the span closes: closing always
/// happens from a suspended state.
pub open spec fn close_idle(e: ExtV, now: u64) -> u64 {
    (e.idle + (now - e.last)) as u64
}

/// The timing snapshot assembled when a span closes.
pub open spec fn close_timings(e: ExtV, now: u64) -> Timings {
    Timings { start_time: e.first, end_time: e.last_sys, busy: e.busy, idle: close_idle(e, now) }
}

/// Entering and exiting preserve the accumulator's accounting.
pub proof fn lemma_transitions_wf(e: ExtV, now: u64, wall: u64)
    requires
        ext_wf(e),
        now >= e.last,
    ensures
        ext_wf(enter_ext(e, now, wall)),
        ext_wf(exit_ext(e, now, wall)),
{
}

/// Busy plus idle time at close equals the monotonic interval between the
/// span's creation and its close, exactly: no time is counted twice and none
/// is dropped, however many enter/exit cycles the span went through.
pub proof fn lemma_close_accounts_all_time(e: ExtV, now: u64)
    requires
        ext_wf(e),
        now >= e.last,
    ensures
        close_timings(e, now).busy + close_timings(e, now).idle == now - e.first_mono,
{
}

impl TraceExt {
    /// Fresh tracing state for a span created at monotonic instant
    /// `now_mono` and wall-clock instant `now_wall`.
    pub fn new(span: TelemetrySpan, now_mono: u64, now_wall: u64) -> (r: TraceExt)
        ensures
            r@ == (ExtV {
                span: span@,
                spans: Seq::<SpanV>::empty(),
                idle: 0,
                busy: 0,
                last: now_mono,
                first: now_wall,
                last_sys: now_wall,
                first_mono: now_mono,
            }),
            ext_wf(r@),
    {
        let r = TraceExt {
            span,
            spans: Vec::new(),
            idle: 0,
            busy: 0,
            last: now_mono,
            first: now_wall,
            last_sys: now_wall,
            first_mono: Ghost(now_mono),
        };
        proof {
            assert(spans_v(r.spans@) =~= Seq::<SpanV>::empty());
        }
        r
    }
}

} // verus!
