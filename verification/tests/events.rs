//! Event and breadcrumb conversion, composition, ancestor iteration.

use span_collect::converters::{Level, EventRecord};
use span_collect::field_visitor::{FieldEntry, FieldValue};
use span_collect::protocol::SentryLevel;
use span_collect::store::{ParentSpanIter, SpanStore};
use span_collect::values::JsonValue;
use span_collect::{BreadcrumbLayer, CollectBuilder, EventLayer, SpanLayer};

fn plain_event(level: Level, fields: Vec<FieldEntry>) -> EventRecord {
    EventRecord {
        name: String::from("event tests:42"),
        target: String::from("tests::unit"),
        module: Some(String::from("tests")),
        level,
        fields,
        parent: None,
    }
}

#[test]
fn error_event_in_active_span_synthesizes_one_exception() {
    let span_layer = SpanLayer::new(true);
    let event_layer = EventLayer::new(true);
    let mut store = SpanStore::new();
    store.register(1, String::from("handler"), None);
    span_layer.new_span(&mut store, 1, Vec::new(), 10, 100);
    let root_trace = store.get_ext(1).unwrap().span.trace_id;
    let root_span = store.get_ext(1).unwrap().span.span_id;
    let ev = plain_event(Level::Error, Vec::new());
    let out = event_layer.on_event(ev, &store, Some(1));
    assert_eq!(out.exceptions.len(), 1, "exactly one synthesized exception");
    assert_eq!(out.exceptions[0].ty, "event tests:42");
    assert_eq!(out.exceptions[0].module, Some(String::from("tests")));
    assert_eq!(out.transaction, Some(String::from("handler")));
    let tc = out.trace_context.expect("event is correlated to the live trace");
    assert_eq!(tc.trace_id, root_trace);
    assert_eq!(tc.span_id, root_span);
    assert_eq!(out.level, SentryLevel::Error);
    assert_eq!(out.logger, Some(String::from("sentry-tracing")));
}

#[test]
fn event_under_untracked_span_correlates_to_tracked_root() {
    let span_layer = SpanLayer::new(true);
    let event_layer = EventLayer::new(true);
    let mut store = SpanStore::new();
    store.register(1, String::from("outer"), None);
    store.register(2, String::from("handler"), Some(1));
    span_layer.new_span(&mut store, 1, Vec::new(), 10, 100);
    // "handler" itself stays untracked.
    let ev = plain_event(Level::Error, Vec::new());
    let out = event_layer.on_event(ev, &store, Some(2));
    assert_eq!(out.transaction, Some(String::from("outer")));
    assert_eq!(
        out.trace_context.unwrap().trace_id,
        store.get_ext(1).unwrap().span.trace_id
    );
}

#[test]
fn event_without_any_span_has_no_trace_linkage() {
    let event_layer = EventLayer::new(true);
    let store = SpanStore::new();
    let ev = plain_event(Level::Warn, Vec::new());
    let out = event_layer.on_event(ev, &store, None);
    assert_eq!(out.trace_context, None);
    assert_eq!(out.transaction, None);
    assert_eq!(out.level, SentryLevel::Warning);
}

#[test]
fn explicit_error_descriptors_are_used_verbatim() {
    let event_layer = EventLayer::new(true);
    let store = SpanStore::new();
    let exc = span_collect::protocol::Exception {
        ty: String::from("MyError"),
        value: Some(String::from("boom")),
        module: None,
        stacktrace: None,
    };
    let fields = vec![FieldEntry { name: String::from("error"), value: FieldValue::Error(vec![exc]) }];
    let out = event_layer.on_event(plain_event(Level::Error, fields), &store, None);
    assert_eq!(out.exceptions.len(), 1);
    assert_eq!(out.exceptions[0].ty, "MyError");
    assert_eq!(out.exceptions[0].value, Some(String::from("boom")));
}

#[test]
fn event_fields_land_in_extra() {
    let event_layer = EventLayer::new(true);
    let store = SpanStore::new();
    let fields = vec![FieldEntry { name: String::from("count"), value: FieldValue::U64(3) }];
    let out = event_layer.on_event(plain_event(Level::Info, fields), &store, None);
    assert_eq!(out.extra.get("count"), Some(&JsonValue::Uint(3)));
    assert_eq!(out.level, SentryLevel::Info);
}

#[test]
fn breadcrumbs_carry_type_category_and_levels() {
    let layer = BreadcrumbLayer::new(true);
    let fields = vec![FieldEntry { name: String::from("k"), value: FieldValue::Bool(true) }];
    let b = layer.on_event(plain_event(Level::Debug, fields));
    assert_eq!(b.ty, "log");
    assert_eq!(b.category, Some(String::from("tests::unit")));
    assert_eq!(b.level, SentryLevel::Debug);
    assert_eq!(b.data.get("k"), Some(&JsonValue::Bool(true)));
    let t = layer.on_event(plain_event(Level::Trace, Vec::new()));
    assert_eq!(t.level, SentryLevel::Debug, "trace maps to debug severity");
}

#[test]
fn builder_toggles_each_unit_independently() {
    let b = CollectBuilder::new().use_event_layer(false).use_breadcrumb_layer(true)
        .use_span_layer(true);
    let (events, breadcrumbs, spans) = b.build();
    assert!(!events.enabled());
    assert!(breadcrumbs.enabled());
    assert!(spans.enabled());
    let all = CollectBuilder::new();
    let (e2, b2, s2) = all.build();
    assert!(e2.enabled() && b2.enabled() && s2.enabled());
}

#[test]
fn parent_iter_walks_to_the_root() {
    let mut store = SpanStore::new();
    store.register(1, String::from("root"), None);
    store.register(2, String::from("mid"), Some(1));
    store.register(3, String::from("leaf"), Some(2));
    let mut it = ParentSpanIter::new(3);
    assert_eq!(it.next(&store), Some(2));
    assert_eq!(it.next(&store), Some(1));
    assert_eq!(it.next(&store), None);
    assert_eq!(ParentSpanIter::root_span(&store, 3), 1);
    assert_eq!(ParentSpanIter::root_span(&store, 1), 1);
}

#[test]
fn generated_identifiers_differ_between_roots() {
    let layer = SpanLayer::new(true);
    let mut store = SpanStore::new();
    store.register(1, String::from("a"), None);
    store.register(2, String::from("b"), None);
    layer.new_span(&mut store, 1, Vec::new(), 10, 100);
    layer.new_span(&mut store, 2, Vec::new(), 20, 200);
    let ta = store.get_ext(1).unwrap().span.trace_id;
    let tb = store.get_ext(2).unwrap().span.trace_id;
    assert_ne!(ta, tb, "independent roots draw independent random trace ids");
}
