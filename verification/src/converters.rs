//! Conversions from host instrumentation data to backend wire objects.

use vstd::prelude::*;

use crate::field_visitor::{
    extract, extract_model, fields_v, CfgV, FieldEntry, FieldValueV, FieldVisitorConfig, RecordV,
};
use crate::ids::{parse_span_id, parse_trace_id, spec_is_hex};
use crate::protocol::{
    opt_str_v, span_closed_v, spans_v, tx_model, Breadcrumb, BreadcrumbV, Event,
    EventTraceContext, EventV, Exception, Frame, SentryLevel, SpanStatus, SpanV, Stacktrace,
    TelemetrySpan, TraceContextRecord, Transaction,
};
use crate::store::{
    ext_at, find_idx, lemma_topmost_tracked, store_wf, topmost_tracked_from, SpanStore, StoreV,
};
use crate::timings::Timings;
use crate::values::{clone_opt_string, JsonValue};

verus! {

/// Severity of a host instrumentation event.
#[derive(Debug, Clone, Copy, PartialEq, Eq, Structural)]
pub enum Level {
    Error,
    Warn,
    Info,
    Debug,
    Trace,
}

/// The backend severity each host level maps to.
pub open spec fn level_model(l: Level) -> SentryLevel {
    match l {
        Level::Error => SentryLevel::Error,
        Level::Warn => SentryLevel::Warning,
        Level::Info => SentryLevel::Info,
        Level::Debug => SentryLevel::Debug,
        Level::Trace => SentryLevel::Debug,
    }
}

/// Converts a host instrumentation level to the backend severity.
pub fn convert_tracing_level(level: &Level) -> (r: SentryLevel)
    ensures
        r == level_model(*level),
{
    match level {
        Level::Error => SentryLevel::Error,
        Level::Warn => SentryLevel::Warning,
        Level::Info => SentryLevel::Info,
        Level::Debug => SentryLevel::Debug,
        Level::Trace => SentryLevel::Debug,
    }
}

/// What stripping ANSI escape sequences leaves of a text.
pub uninterp spec fn ansi_stripped(s: Seq<char>) -> Seq<char>;

/// Relies on `strip_ansi_escapes::strip_str`: removes ANSI escape sequences
/// from the text; the result depends on the characters alone.
#[verifier::external_body]
fn strip_ansi(s: &str) -> (r: String)
    ensures
        r@ == ansi_stripped(s@),
{
    strip_ansi_escapes::strip_str(s)
}

/// Strips ANSI color escape codes from a string.
pub fn strip_ansi_codes_from_string(string: &str) -> (r: String)
    ensures
        r@ == ansi_stripped(string@),
{
    strip_ansi(string)
}

/// Relies on `sentry_core::protocol::TraceId::default` and its `Display`:
/// a random 16-byte identifier rendered as exactly 32 hexadecimal digits.
#[verifier::external_body]
fn generated_trace_id_hex() -> (r: String)
    ensures
        r@.len() == 32,
        spec_is_hex(r@),
{
    sentry_core::protocol::TraceId::default().to_string()
}

/// Relies on `sentry_core::protocol::SpanId::default` and its `Display`:
/// a random 8-byte identifier rendered as exactly 16 hexadecimal digits.
#[verifier::external_body]
fn generated_span_id_hex() -> (r: String)
    ensures
        r@.len() == 16,
        spec_is_hex(r@),
{
    sentry_core::protocol::SpanId::default().to_string()
}

/// Relies on `sentry_core::types::random_uuid`: a freshly generated random
/// identifier; nothing further can be promised of its value.
#[verifier::external_body]
fn generated_event_id() -> (r: u128) {
    sentry_core::types::random_uuid().as_u128()
}

/// Relies on `sentry_backtrace::current_stacktrace`: captures the current
/// call stack if one can be resolved; the outcome depends on the machine
/// state, so nothing is promised of it. Only the function, file and line of
/// each frame are kept.
#[verifier::external_body]
fn capture_stacktrace() -> (r: Option<Stacktrace>) {
    sentry_backtrace::current_stacktrace().map(
        |st| Stacktrace {
            frames: st.frames.into_iter().map(
                |f| Frame { function: f.function, filename: f.filename, lineno: f.lineno },
            ).collect(),
        },
    )
}

/// A freshly generated 128-bit trace identifier; the value is random.
pub fn fresh_trace_id() -> (r: u128) {
    let hex = generated_trace_id_hex();
    match parse_trace_id(hex.as_str()) {
        Some(v) => v,
        None => unreached(),
    }
}

/// A freshly generated 64-bit span identifier; the value is random.
pub fn fresh_span_id() -> (r: u64) {
    let hex = generated_span_id_hex();
    match parse_span_id(hex.as_str()) {
        Some(v) => v,
        None => unreached(),
    }
}

/// The extraction configuration used for span attributes and, by default,
/// for events: no message field, ANSI stripping on.
pub open spec fn default_visitor_cfg() -> CfgV {
    CfgV { strip_ansi_escapes: true, event_message_field: None }
}

/// The telemetry span seeded for a newly created host span.
///
/// Trace identity: an explicit, well-formed trace id in the creation
/// attributes wins; otherwise the nearest tracked ancestor's trace id is
/// inherited; a root without either gets the freshly generated one. An
/// explicit span id likewise overrides the generated one, so that an
/// externally propagated distributed-trace identity can carry over.
pub open spec fn new_span_v(
    name: Seq<char>,
    parent: Option<SpanV>,
    rec: RecordV,
    fresh_trace: u128,
    fresh_span: u64,
    start_wall: u64,
) -> SpanV {
    SpanV {
        span_id: match rec.span_id {
            Some(sid) => sid,
            None => fresh_span,
        },
        trace_id: match rec.trace_id {
            Some(t) => t,
            None => match parent {
                Some(p) => p.trace_id,
                None => fresh_trace,
            },
        },
        parent_span_id: None,
        op: Some(name),
        description: rec.message,
        status: Some(
            if rec.exceptions.len() == 0 {
                SpanStatus::Okay
            } else {
                SpanStatus::InternalError
            },
        ),
        start_timestamp: start_wall,
        timestamp: None,
        data: rec.data,
    }
}

/// Seeds the telemetry span for a newly created host span from its creation
/// attributes, inheriting trace identity from `parent` when none is given
/// explicitly; fresh identifiers are drawn where needed, so the chosen ids
/// are pinned only through the result itself.
pub fn default_new_span(
    name: &String,
    parent: Option<&TelemetrySpan>,
    fields: Vec<FieldEntry>,
    start_wall: u64,
) -> (r: TelemetrySpan)
    ensures
        r@ == new_span_v(
            name@,
            (match parent {
                Some(p) => Some(p@),
                None => None,
            }),
            extract_model(default_visitor_cfg(), fields_v(fields@)),
            r@.trace_id,
            r@.span_id,
            start_wall,
        ),
{
    let result = extract(
        FieldVisitorConfig { strip_ansi_escapes: true, event_message_field: None },
        fields,
    );
    let trace_id = match result.trace_id {
        Some(t) => t,
        None => match parent {
            Some(p) => p.trace_id,
            None => fresh_trace_id(),
        },
    };
    let span_id = match result.span_id {
        Some(sid) => sid,
        None => fresh_span_id(),
    };
    let status = if result.exceptions.len() == 0 {
        SpanStatus::Okay
    } else {
        SpanStatus::InternalError
    };
    TelemetrySpan {
        span_id,
        trace_id,
        parent_span_id: None,
        op: Some(name.clone()),
        description: result.event_message,
        status: Some(status),
        start_timestamp: start_wall,
        timestamp: None,
        data: result.json_values,
    }
}

/// Writes the timing split of a closing span into its data map, as the two
/// integer nanosecond fields `busy` and `idle`, and stamps the final
/// timestamp.
pub fn default_on_close(span: &mut TelemetrySpan, timings: Timings)
    ensures
        final(span)@ == span_closed_v(old(span)@, timings),
{
    let busy_key = String::from_str("busy");
    let idle_key = String::from_str("idle");
    span.data.insert(busy_key, JsonValue::Uint(timings.busy));
    span.data.insert(idle_key, JsonValue::Uint(timings.idle));
    span.timestamp = Some(timings.end_time);
}

/// Assembles the transaction for a closed root span: a fresh event id, the
/// originating span's display name, the timing snapshot's interval, the
/// finished child spans verbatim in completion order, and a trace context
/// mirroring the root span's identity.
pub fn default_convert_transaction(
    sentry_span: TelemetrySpan,
    name: &String,
    spans: Vec<TelemetrySpan>,
    timings: Timings,
) -> (r: Transaction)
    ensures
        r@ == tx_model(sentry_span@, name@, spans_v(spans@), timings, r@.event_id),
{
    let trace_context = TraceContextRecord {
        span_id: sentry_span.span_id,
        trace_id: sentry_span.trace_id,
        parent_span_id: sentry_span.parent_span_id,
        op: Some(name.clone()),
        description: clone_opt_string(&sentry_span.description),
        status: sentry_span.status,
    };
    Transaction {
        event_id: generated_event_id(),
        name: Some(name.clone()),
        start_timestamp: timings.start_time,
        timestamp: Some(timings.end_time),
        spans,
        trace_context,
    }
}

/// One host instrumentation event, as plain values: metadata and fields.
pub struct EventRecord {
    /// The event's own name.
    pub name: String,
    /// The originating component.
    pub target: String,
    pub module: Option<String>,
    pub level: Level,
    pub fields: Vec<FieldEntry>,
    /// The span the host attached the event to explicitly, if any.
    pub parent: Option<u64>,
}

/// The mathematical value of an `EventRecord`.
pub struct EventRecordV {
    pub name: Seq<char>,
    pub target: Seq<char>,
    pub module: Option<Seq<char>>,
    pub level: Level,
    pub fields: Seq<(Seq<char>, FieldValueV)>,
    pub parent: Option<u64>,
}

impl View for EventRecord {
    type V = EventRecordV;

    open spec fn view(&self) -> EventRecordV {
        EventRecordV {
            name: self.name@,
            target: self.target@,
            module: opt_str_v(self.module),
            level: self.level,
            fields: fields_v(self.fields@),
            parent: self.parent,
        }
    }
}

/// The breadcrumb an event turns into: type `log`, the event's component as
/// category, and the extracted message and data.
pub open spec fn breadcrumb_model(ev: EventRecordV, cfg: CfgV) -> BreadcrumbV {
    let rec = extract_model(cfg, ev.fields);
    BreadcrumbV {
        ty: "log"@,
        level: level_model(ev.level),
        category: Some(ev.target),
        message: rec.message,
        data: rec.data,
    }
}

/// Creates a breadcrumb from a given instrumentation event.
pub fn breadcrumb_from_event(event: EventRecord, visitor_config: FieldVisitorConfig) -> (r:
    Breadcrumb)
    ensures
        r@ == breadcrumb_model(event@, visitor_config@),
{
    let EventRecord { name: _, target, module: _, level, fields, parent: _ } = event;
    let result = extract(visitor_config, fields);
    Breadcrumb {
        ty: String::from_str("log"),
        level: convert_tracing_level(&level),
        category: Some(target),
        message: result.event_message,
        data: result.json_values,
    }
}

/// Creates a breadcrumb with the default extraction configuration.
pub fn default_convert_breadcrumb(event: EventRecord) -> (r: Breadcrumb)
    ensures
        r@ == breadcrumb_model(
            event@,
            (CfgV { strip_ansi_escapes: true, event_message_field: None }),
        ),
{
    breadcrumb_from_event(
        event,
        FieldVisitorConfig { strip_ansi_escapes: true, event_message_field: None },
    )
}

/// The trace linkage an event gets: starting from its explicit parent span,
/// or else the currently active one, the walk to the tracked root yields
/// that root's span and trace ids and its registered name.
pub open spec fn event_link_model(ev: EventRecordV, s: StoreV, current: Option<u64>) -> (
    Option<EventTraceContext>,
    Option<Seq<char>>,
) {
    let start = match ev.parent {
        Some(p) => Some(p),
        None => current,
    };
    match start {
        None => (None::<EventTraceContext>, None::<Seq<char>>),
        Some(pid) => {
            let i = find_idx(s, pid);
            if i >= 0 {
                match topmost_tracked_from(s, i) {
                    Some(j) => (
                        Some(
                            EventTraceContext {
                                span_id: ext_at(s, j).span.span_id,
                                trace_id: ext_at(s, j).span.trace_id,
                            },
                        ),
                        Some(s[j].name),
                    ),
                    None => (None::<EventTraceContext>, None::<Seq<char>>),
                }
            } else {
                (None::<EventTraceContext>, None::<Seq<char>>)
            }
        },
    }
}

/// Everything an event conversion pins down: severity, message, extracted
/// data, the error descriptors — the extracted ones verbatim, otherwise
/// exactly one synthesized from the event's own name, message and module —
/// and the trace linkage. Only a freshly captured stack's content is left
/// open, and only when one was requested.
pub open spec fn event_matches(
    r: EventV,
    ev: EventRecordV,
    cfg: CfgV,
    s: StoreV,
    current: Option<u64>,
    attach: bool,
) -> bool {
    let rec = extract_model(cfg, ev.fields);
    let link = event_link_model(ev, s, current);
    &&& r.logger == Some("sentry-tracing"@)
    &&& r.level == level_model(ev.level)
    &&& r.message == rec.message
    &&& r.extra == rec.data
    &&& (if rec.exceptions.len() > 0 {
        r.exceptions == rec.exceptions
    } else {
        &&& r.exceptions.len() == 1
        &&& r.exceptions[0].ty == ev.name
        &&& r.exceptions[0].value == rec.message
        &&& r.exceptions[0].module == ev.module
        &&& (!attach ==> r.exceptions[0].stacktrace is None)
    })
    &&& r.trace_context == link.0
    &&& r.transaction == link.1
}

/// Creates a backend error event from an instrumentation event, correlated
/// to the in-flight trace of the nearest tracked root. When `attach_stacktraces`
/// is set, a synthesized descriptor carries a captured call stack.
pub fn convert_tracing_event(
    event: EventRecord,
    store: &SpanStore,
    current_span: Option<u64>,
    attach_stacktraces: bool,
    visitor_config: FieldVisitorConfig,
) -> (r: Event)
    requires
        store_wf(store@),
    ensures
        event_matches(r@, event@, visitor_config@, store@, current_span, attach_stacktraces),
{
    let EventRecord { name, target: _, module, level, fields, parent } = event;
    let result = extract(visitor_config, fields);
    let exceptions: Vec<Exception> = if result.exceptions.len() > 0 {
        result.exceptions
    } else {
        let st = if attach_stacktraces {
            capture_stacktrace()
        } else {
            None
        };
        let mut one: Vec<Exception> = Vec::new();
        one.push(
            Exception {
                ty: name,
                value: clone_opt_string(&result.event_message),
                module: module,
                stacktrace: st,
            },
        );
        one
    };
    let start = match parent {
        Some(p) => Some(p),
        None => current_span,
    };
    let mut trace_context: Option<EventTraceContext> = None;
    let mut transaction: Option<String> = None;
    match start {
        None => {},
        Some(pid) => {
            match store.index_of(pid) {
                None => {},
                Some(i) => {
                    match store.find_topmost_tracked(i) {
                        None => {},
                        Some(j) => {
                            proof {
                                lemma_topmost_tracked(store@, i as int);
                            }
                            match store.ext_at_idx(j) {
                                Some(e) => {
                                    trace_context = Some(
                                        EventTraceContext {
                                            span_id: e.span.span_id,
                                            trace_id: e.span.trace_id,
                                        },
                                    );
                                    transaction = Some(store.name_at_idx(j).clone());
                                },
                                None => {
                                    proof {
                                        assert(false);
                                    }
                                },
                            }
                        },
                    }
                },
            }
        },
    }
    Event {
        logger: Some(String::from_str("sentry-tracing")),
        level: convert_tracing_level(&level),
        message: result.event_message,
        exceptions,
        extra: result.json_values,
        trace_context,
        transaction,
    }
}

/// Creates a backend error event with the default configuration: stack
/// traces attached, no message field, ANSI stripping on.
pub fn default_convert_event(event: EventRecord, store: &SpanStore, current_span: Option<u64>) -> (r:
    Event)
    requires
        store_wf(store@),
    ensures
        event_matches(
            r@,
            event@,
            default_visitor_cfg(),
            store@,
            current_span,
            true,
        ),
{
    convert_tracing_event(
        event,
        store,
        current_span,
        true,
        FieldVisitorConfig { strip_ansi_escapes: true, event_message_field: None },
    )
}

} // verus!
