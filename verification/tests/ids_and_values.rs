//! Identifier parsing and field-map behavior.

use span_collect::ids::{parse_span_id, parse_trace_id};
use span_collect::values::{FieldMap, JsonValue};

#[test]
fn trace_id_parses_canonical_hex() {
    let r = parse_trace_id("0123456789abcdef0123456789abcdef");
    assert_eq!(r, Some(0x0123456789abcdef0123456789abcdefu128));
}

#[test]
fn trace_id_parses_uppercase_hex() {
    let r = parse_trace_id("0123456789ABCDEF0123456789ABCDEF");
    assert_eq!(r, Some(0x0123456789abcdef0123456789abcdefu128));
}

#[test]
fn trace_id_rejects_wrong_length() {
    assert_eq!(parse_trace_id("abcdef"), None);
    assert_eq!(parse_trace_id(""), None);
    assert_eq!(parse_trace_id("0123456789abcdef0123456789abcde"), None);
    assert_eq!(parse_trace_id("0123456789abcdef0123456789abcdef0"), None);
}

#[test]
fn trace_id_rejects_non_hex() {
    assert_eq!(parse_trace_id("0123456789abcdef0123456789abcdeg"), None);
    assert_eq!(parse_trace_id("xyzxyzxyzxyzxyzxyzxyzxyzxyzxyzxy"), None);
}

#[test]
fn span_id_parses_and_rejects() {
    assert_eq!(parse_span_id("00000000000000ff"), Some(0xffu64));
    assert_eq!(parse_span_id("ffffffffffffffff"), Some(u64::MAX));
    assert_eq!(parse_span_id("ff"), None);
    assert_eq!(parse_span_id("00000000000000zz"), None);
}

#[test]
fn field_map_inserts_and_replaces_in_place() {
    let mut m = FieldMap::new();
    m.insert(String::from("a"), JsonValue::Uint(1));
    m.insert(String::from("b"), JsonValue::Bool(true));
    assert_eq!(m.len(), 2);
    m.insert(String::from("a"), JsonValue::Uint(7));
    assert_eq!(m.len(), 2);
    assert_eq!(m.get("a"), Some(&JsonValue::Uint(7)));
    assert_eq!(m.get("b"), Some(&JsonValue::Bool(true)));
    assert_eq!(m.get("c"), None);
}

#[test]
fn field_map_keeps_first_insertion_order() {
    let mut m = FieldMap::new();
    m.insert(String::from("z"), JsonValue::Uint(1));
    m.insert(String::from("a"), JsonValue::Uint(2));
    m.insert(String::from("z"), JsonValue::Uint(3));
    let entries = m.entries_list();
    assert_eq!(entries.len(), 2);
    assert_eq!(entries[0].0, "z");
    assert_eq!(entries[0].1, JsonValue::Uint(3));
    assert_eq!(entries[1].0, "a");
}
