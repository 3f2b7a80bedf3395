//! Span lifecycle: creation, timing, parent resolution, transactions.

use span_collect::field_visitor::{FieldEntry, FieldValue};
use span_collect::protocol::SpanStatus;
use span_collect::store::SpanStore;
use span_collect::values::JsonValue;
use span_collect::SpanLayer;

fn no_fields() -> Vec<FieldEntry> {
    Vec::new()
}

#[test]
fn close_without_create_is_a_noop() {
    let layer = SpanLayer::new(true);
    let mut store = SpanStore::new();
    store.register(1, String::from("lonely"), None);
    let out = layer.on_close(&mut store, 1, 100);
    assert!(out.is_none());
    assert!(store.get_ext(1).is_none());
    // Closing again is just as harmless.
    let out2 = layer.on_close(&mut store, 1, 200);
    assert!(out2.is_none());
}

#[test]
fn busy_plus_idle_accounts_the_whole_interval() {
    let layer = SpanLayer::new(true);
    let mut store = SpanStore::new();
    store.register(1, String::from("root"), None);
    store.register(2, String::from("work"), Some(1));
    layer.new_span(&mut store, 1, no_fields(), 1_000, 50_000);
    // Child created at 2_000; two enter/exit cycles; closed at 9_000.
    layer.new_span(&mut store, 2, no_fields(), 2_000, 51_000);
    layer.on_enter(&mut store, 2, 3_000, 52_000);
    layer.on_exit(&mut store, 2, 4_500, 53_000);
    layer.on_enter(&mut store, 2, 5_000, 54_000);
    layer.on_exit(&mut store, 2, 8_000, 55_000);
    let out = layer.on_close(&mut store, 2, 9_000);
    assert!(out.is_none());
    let parent = store.get_ext(1).expect("root is tracked");
    assert_eq!(parent.spans.len(), 1);
    let closed = &parent.spans[0];
    let busy = match closed.data.get("busy") {
        Some(JsonValue::Uint(b)) => *b,
        other => panic!("busy missing or mistyped: {:?}", other),
    };
    let idle = match closed.data.get("idle") {
        Some(JsonValue::Uint(i)) => *i,
        other => panic!("idle missing or mistyped: {:?}", other),
    };
    // busy: (4500-3000) + (8000-5000); idle: (3000-2000) + (5000-4500) + (9000-8000)
    assert_eq!(busy, 4_500);
    assert_eq!(idle, 2_500);
    assert_eq!(busy + idle, 9_000 - 2_000);
}

#[test]
fn child_then_root_yields_one_transaction() {
    let layer = SpanLayer::new(true);
    let mut store = SpanStore::new();
    store.register(10, String::from("request"), None);
    store.register(11, String::from("db_query"), Some(10));
    layer.new_span(&mut store, 10, no_fields(), 100, 1_000);
    layer.on_enter(&mut store, 10, 110, 1_010);
    layer.new_span(&mut store, 11, no_fields(), 120, 1_020);
    layer.on_enter(&mut store, 11, 130, 1_030);
    layer.on_exit(&mut store, 11, 140, 1_040);
    let root_span_id = store.get_ext(10).unwrap().span.span_id;
    let root_trace_id = store.get_ext(10).unwrap().span.trace_id;
    let child_span_id = store.get_ext(11).unwrap().span.span_id;
    let child_out = layer.on_close(&mut store, 11, 150);
    assert!(child_out.is_none(), "child close submits nothing");
    layer.on_exit(&mut store, 10, 160, 1_060);
    let out = layer.on_close(&mut store, 10, 170);
    let tx = out.expect("root close submits exactly one transaction");
    assert_eq!(tx.name, Some(String::from("request")));
    assert_eq!(tx.spans.len(), 1);
    let child = &tx.spans[0];
    assert_eq!(child.span_id, child_span_id);
    assert_eq!(child.parent_span_id, Some(root_span_id));
    assert_eq!(child.trace_id, root_trace_id, "child shares the root's trace id");
    assert_eq!(tx.trace_context.trace_id, root_trace_id);
    assert_eq!(tx.trace_context.span_id, root_span_id);
    assert_eq!(tx.trace_context.op, Some(String::from("request")));
    // Transaction interval: creation wall time to last-exit wall time.
    assert_eq!(tx.start_timestamp, 1_000);
    assert_eq!(tx.timestamp, Some(1_060));
    // The root span is gone from the store.
    assert!(store.get_ext(10).is_none());
    // Close is terminal: a second close submits nothing.
    assert!(layer.on_close(&mut store, 10, 180).is_none());
}

#[test]
fn untracked_middle_layer_is_skipped_on_close() {
    let layer = SpanLayer::new(true);
    let mut store = SpanStore::new();
    store.register(1, String::from("root"), None);
    store.register(2, String::from("middle"), Some(1));
    store.register(3, String::from("leaf"), Some(2));
    layer.new_span(&mut store, 1, no_fields(), 10, 100);
    // The middle span is never created: it stays untracked.
    layer.new_span(&mut store, 3, no_fields(), 20, 200);
    let root_span_id = store.get_ext(1).unwrap().span.span_id;
    let out = layer.on_close(&mut store, 3, 30);
    assert!(out.is_none());
    let root_ext = store.get_ext(1).unwrap();
    assert_eq!(root_ext.spans.len(), 1);
    assert_eq!(root_ext.spans[0].parent_span_id, Some(root_span_id));
    assert_eq!(root_ext.spans[0].op, Some(String::from("leaf")));
}

#[test]
fn trace_id_is_inherited_unless_explicitly_set() {
    let layer = SpanLayer::new(true);
    let mut store = SpanStore::new();
    store.register(1, String::from("root"), None);
    store.register(2, String::from("plain_child"), Some(1));
    store.register(3, String::from("explicit_child"), Some(1));
    layer.new_span(&mut store, 1, no_fields(), 10, 100);
    let root_trace = store.get_ext(1).unwrap().span.trace_id;
    layer.new_span(&mut store, 2, no_fields(), 20, 200);
    assert_eq!(store.get_ext(2).unwrap().span.trace_id, root_trace);
    let explicit = vec![FieldEntry {
        name: String::from("trace_id"),
        value: FieldValue::Str(String::from("000102030405060708090a0b0c0d0e0f")),
    }];
    layer.new_span(&mut store, 3, explicit, 30, 300);
    assert_eq!(
        store.get_ext(3).unwrap().span.trace_id,
        0x000102030405060708090a0b0c0d0e0fu128
    );
}

#[test]
fn invalid_trace_id_attribute_still_gets_generated_identity() {
    let layer = SpanLayer::new(true);
    let mut store = SpanStore::new();
    store.register(1, String::from("root"), None);
    let bad = vec![FieldEntry {
        name: String::from("trace_id"),
        value: FieldValue::Str(String::from("zz-not-hex-and-wrong-length")),
    }];
    layer.new_span(&mut store, 1, bad, 10, 100);
    let ext = store.get_ext(1).expect("span is tracked despite the bad attribute");
    // The malformed identifier was dropped; the data map never sees it.
    assert!(ext.span.data.get("trace_id").is_none());
}

#[test]
fn explicit_span_id_overrides_generated_one() {
    let layer = SpanLayer::new(true);
    let mut store = SpanStore::new();
    store.register(1, String::from("root"), None);
    let fields = vec![FieldEntry {
        name: String::from("span_id"),
        value: FieldValue::Str(String::from("00000000000000cc")),
    }];
    layer.new_span(&mut store, 1, fields, 10, 100);
    assert_eq!(store.get_ext(1).unwrap().span.span_id, 0xcc);
}

#[test]
fn repeated_create_keeps_first_extension() {
    let layer = SpanLayer::new(true);
    let mut store = SpanStore::new();
    store.register(1, String::from("root"), None);
    layer.new_span(&mut store, 1, no_fields(), 10, 100);
    let first_trace = store.get_ext(1).unwrap().span.trace_id;
    let fields = vec![FieldEntry {
        name: String::from("trace_id"),
        value: FieldValue::Str(String::from("000102030405060708090a0b0c0d0e0f")),
    }];
    layer.new_span(&mut store, 1, fields, 20, 200);
    assert_eq!(store.get_ext(1).unwrap().span.trace_id, first_trace);
}

#[test]
fn enter_and_exit_stamp_wall_clock_times() {
    let layer = SpanLayer::new(true);
    let mut store = SpanStore::new();
    store.register(1, String::from("root"), None);
    layer.new_span(&mut store, 1, no_fields(), 10, 100);
    layer.on_enter(&mut store, 1, 20, 250);
    assert_eq!(store.get_ext(1).unwrap().span.start_timestamp, 250);
    layer.on_exit(&mut store, 1, 30, 300);
    assert_eq!(store.get_ext(1).unwrap().span.timestamp, Some(300));
    assert_eq!(store.get_ext(1).unwrap().last_sys, 300);
}

#[test]
fn creation_attributes_seed_description_status_and_data() {
    let layer = SpanLayer::new(true);
    let mut store = SpanStore::new();
    store.register(1, String::from("root"), None);
    let fields = vec![FieldEntry { name: String::from("rows"), value: FieldValue::U64(7) }];
    layer.new_span(&mut store, 1, fields, 10, 100);
    let ext = store.get_ext(1).unwrap();
    assert_eq!(ext.span.op, Some(String::from("root")));
    assert_eq!(ext.span.description, None);
    assert_eq!(ext.span.status, Some(SpanStatus::Okay));
    assert_eq!(ext.span.data.get("rows"), Some(&JsonValue::Uint(7)));
}

#[test]
fn error_attribute_marks_span_status_internal_error() {
    let layer = SpanLayer::new(true);
    let mut store = SpanStore::new();
    store.register(1, String::from("root"), None);
    let exc = span_collect::protocol::Exception {
        ty: String::from("Oops"),
        value: None,
        module: None,
        stacktrace: None,
    };
    let fields = vec![FieldEntry { name: String::from("error"), value: FieldValue::Error(vec![exc]) }];
    layer.new_span(&mut store, 1, fields, 10, 100);
    assert_eq!(store.get_ext(1).unwrap().span.status, Some(SpanStatus::InternalError));
}

#[test]
fn grandchildren_are_flattened_into_the_transaction() {
    let layer = SpanLayer::new(true);
    let mut store = SpanStore::new();
    store.register(1, String::from("root"), None);
    store.register(2, String::from("mid"), Some(1));
    store.register(3, String::from("leaf"), Some(2));
    layer.new_span(&mut store, 1, no_fields(), 10, 100);
    layer.new_span(&mut store, 2, no_fields(), 20, 200);
    layer.new_span(&mut store, 3, no_fields(), 30, 300);
    layer.on_close(&mut store, 3, 40);
    layer.on_close(&mut store, 2, 50);
    let tx = layer.on_close(&mut store, 1, 60).expect("root submits");
    // The leaf merged into mid, and mid's close carried both upward.
    assert_eq!(tx.spans.len(), 2);
    assert_eq!(tx.spans[0].op, Some(String::from("leaf")));
    assert_eq!(tx.spans[1].op, Some(String::from("mid")));
}
