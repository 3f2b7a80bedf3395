//! Backend wire-model objects: spans, transactions, events, breadcrumbs.

use vstd::prelude::*;

use crate::timings::Timings;
use crate::values::{fm_insert, FieldMap, FieldSeq, ValueV};

verus! {

/// Severity of a backend event or breadcrumb.
#[derive(Debug, Clone, Copy, PartialEq, Eq, Structural)]
pub enum SentryLevel {
    Debug,
    Info,
    Warning,
    Error,
}

/// Terminal status of a span.
#[derive(Debug, Clone, Copy, PartialEq, Eq, Structural)]
pub enum SpanStatus {
    Okay,
    InternalError,
}

/// The outward-facing representation of one span.
#[derive(Debug)]
pub struct TelemetrySpan {
    pub span_id: u64,
    pub trace_id: u128,
    pub parent_span_id: Option<u64>,
    /// Operation name.
    pub op: Option<String>,
    pub description: Option<String>,
    pub status: Option<SpanStatus>,
    /// Wall-clock start, nanoseconds since the epoch.
    pub start_timestamp: u64,
    /// Wall-clock end, nanoseconds since the epoch, once known.
    pub timestamp: Option<u64>,
    pub data: FieldMap,
}

/// The mathematical value of a `TelemetrySpan`.
pub struct SpanV {
    pub span_id: u64,
    pub trace_id: u128,
    pub parent_span_id: Option<u64>,
    pub op: Option<Seq<char>>,
    pub description: Option<Seq<char>>,
    pub status: Option<SpanStatus>,
    pub start_timestamp: u64,
    pub timestamp: Option<u64>,
    pub data: FieldSeq,
}

/// The view of an optional owned string.
pub open spec fn opt_str_v(o: Option<String>) -> Option<Seq<char>> {
    match o {
        Some(s) => Some(s@),
        None => None,
    }
}

impl View for TelemetrySpan {
    type V = SpanV;

    open spec fn view(&self) -> SpanV {
        SpanV {
            span_id: self.span_id,
            trace_id: self.trace_id,
            parent_span_id: self.parent_span_id,
            op: opt_str_v(self.op),
            description: opt_str_v(self.description),
            status: self.status,
            start_timestamp: self.start_timestamp,
            timestamp: self.timestamp,
            data: self.data@,
        }
    }
}

/// The views of a list of spans.
pub open spec fn spans_v(s: Seq<TelemetrySpan>) -> Seq<SpanV> {
    s.map_values(|sp: TelemetrySpan| sp@)
}

/// One frame of a captured call stack.
#[derive(Debug)]
pub struct Frame {
    pub function: Option<String>,
    pub filename: Option<String>,
    pub lineno: Option<u64>,
}

pub struct FrameV {
    pub function: Option<Seq<char>>,
    pub filename: Option<Seq<char>>,
    pub lineno: Option<u64>,
}

impl View for Frame {
    type V = FrameV;

    open spec fn view(&self) -> FrameV {
        FrameV {
            function: opt_str_v(self.function),
            filename: opt_str_v(self.filename),
            lineno: self.lineno,
        }
    }
}

/// A captured call stack.
#[derive(Debug)]
pub struct Stacktrace {
    pub frames: Vec<Frame>,
}

pub struct StacktraceV {
    pub frames: Seq<FrameV>,
}

impl View for Stacktrace {
    type V = StacktraceV;

    open spec fn view(&self) -> StacktraceV {
        StacktraceV { frames: self.frames@.map_values(|f: Frame| f@) }
    }
}

/// A structured error descriptor: type, message, optional stack trace.
#[derive(Debug)]
pub struct Exception {
    pub ty: String,
    pub value: Option<String>,
    pub module: Option<String>,
    pub stacktrace: Option<Stacktrace>,
}

pub struct ExceptionV {
    pub ty: Seq<char>,
    pub value: Option<Seq<char>>,
    pub module: Option<Seq<char>>,
    pub stacktrace: Option<StacktraceV>,
}

impl View for Exception {
    type V = ExceptionV;

    open spec fn view(&self) -> ExceptionV {
        ExceptionV {
            ty: self.ty@,
            value: opt_str_v(self.value),
            module: opt_str_v(self.module),
            stacktrace: match &self.stacktrace {
                Some(st) => Some(st@),
                None => None,
            },
        }
    }
}

/// The views of a list of error descriptors.
pub open spec fn exceptions_v(s: Seq<Exception>) -> Seq<ExceptionV> {
    s.map_values(|e: Exception| e@)
}

/// A lightweight log-like record attached to the current execution context.
#[derive(Debug)]
pub struct Breadcrumb {
    pub ty: String,
    pub level: SentryLevel,
    pub category: Option<String>,
    pub message: Option<String>,
    pub data: FieldMap,
}

pub struct BreadcrumbV {
    pub ty: Seq<char>,
    pub level: SentryLevel,
    pub category: Option<Seq<char>>,
    pub message: Option<Seq<char>>,
    pub data: FieldSeq,
}

impl View for Breadcrumb {
    type V = BreadcrumbV;

    open spec fn view(&self) -> BreadcrumbV {
        BreadcrumbV {
            ty: self.ty@,
            level: self.level,
            category: opt_str_v(self.category),
            message: opt_str_v(self.message),
            data: self.data@,
        }
    }
}

/// The trace-context linkage attached to an outgoing error event.
#[derive(Debug, Clone, Copy, PartialEq, Eq, Structural)]
pub struct EventTraceContext {
    pub span_id: u64,
    pub trace_id: u128,
}

/// A backend error event.
#[derive(Debug)]
pub struct Event {
    pub logger: Option<String>,
    pub level: SentryLevel,
    pub message: Option<String>,
    pub exceptions: Vec<Exception>,
    pub extra: FieldMap,
    pub trace_context: Option<EventTraceContext>,
    /// Name of the in-flight transaction the event belongs to.
    pub transaction: Option<String>,
}

pub struct EventV {
    pub logger: Option<Seq<char>>,
    pub level: SentryLevel,
    pub message: Option<Seq<char>>,
    pub exceptions: Seq<ExceptionV>,
    pub extra: FieldSeq,
    pub trace_context: Option<EventTraceContext>,
    pub transaction: Option<Seq<char>>,
}

impl View for Event {
    type V = EventV;

    open spec fn view(&self) -> EventV {
        EventV {
            logger: opt_str_v(self.logger),
            level: self.level,
            message: opt_str_v(self.message),
            exceptions: exceptions_v(self.exceptions@),
            extra: self.extra@,
            trace_context: self.trace_context,
            transaction: opt_str_v(self.transaction),
        }
    }
}

/// The trace context mirrored from a root span onto its transaction.
#[derive(Debug)]
pub struct TraceContextRecord {
    pub span_id: u64,
    pub trace_id: u128,
    pub parent_span_id: Option<u64>,
    pub op: Option<String>,
    pub description: Option<String>,
    pub status: Option<SpanStatus>,
}

pub struct TraceContextV {
    pub span_id: u64,
    pub trace_id: u128,
    pub parent_span_id: Option<u64>,
    pub op: Option<Seq<char>>,
    pub description: Option<Seq<char>>,
    pub status: Option<SpanStatus>,
}

impl View for TraceContextRecord {
    type V = TraceContextV;

    open spec fn view(&self) -> TraceContextV {
        TraceContextV {
            span_id: self.span_id,
            trace_id: self.trace_id,
            parent_span_id: self.parent_span_id,
            op: opt_str_v(self.op),
            description: opt_str_v(self.description),
            status: self.status,
        }
    }
}

/// A completed root span with its full descendant span list.
#[derive(Debug)]
pub struct Transaction {
    pub event_id: u128,
    pub name: Option<String>,
    pub start_timestamp: u64,
    pub timestamp: Option<u64>,
    /// Flat list of finished descendant spans, completion order.
    pub spans: Vec<TelemetrySpan>,
    pub trace_context: TraceContextRecord,
}

pub struct TransactionV {
    pub event_id: u128,
    pub name: Option<Seq<char>>,
    pub start_timestamp: u64,
    pub timestamp: Option<u64>,
    pub spans: Seq<SpanV>,
    pub trace_context: TraceContextV,
}

impl View for Transaction {
    type V = TransactionV;

    open spec fn view(&self) -> TransactionV {
        TransactionV {
            event_id: self.event_id,
            name: opt_str_v(self.name),
            start_timestamp: self.start_timestamp,
            timestamp: self.timestamp,
            spans: spans_v(self.spans@),
            trace_context: self.trace_context@,
        }
    }
}

/// A span as it ends: the timing split written into its data under the
/// `busy` and `idle` keys, and the final timestamp stamped.
pub open spec fn span_closed_v(sp: SpanV, t: Timings) -> SpanV {
    SpanV {
        data: fm_insert(
            fm_insert(sp.data, "busy"@, ValueV::Uint(t.busy)),
            "idle"@,
            ValueV::Uint(t.idle),
        ),
        timestamp: Some(t.end_time),
        ..sp
    }
}

/// The transaction assembled from a closed root span.
pub open spec fn tx_model(
    root: SpanV,
    name: Seq<char>,
    children: Seq<SpanV>,
    t: Timings,
    event_id: u128,
) -> TransactionV {
    TransactionV {
        event_id: event_id,
        name: Some(name),
        start_timestamp: t.start_time,
        timestamp: Some(t.end_time),
        spans: children,
        trace_context: TraceContextV {
            span_id: root.span_id,
            trace_id: root.trace_id,
            parent_span_id: root.parent_span_id,
            op: Some(name),
            description: root.description,
            status: root.status,
        },
    }
}

} // verus!
