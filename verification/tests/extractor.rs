//! Structured-field extraction behavior.

use span_collect::field_visitor::{
    extract, FieldEntry, FieldValue, FieldVisitor, FieldVisitorConfig,
};
use span_collect::protocol::Exception;
use span_collect::values::JsonValue;

fn cfg_plain() -> FieldVisitorConfig {
    FieldVisitorConfig { strip_ansi_escapes: false, event_message_field: None }
}

fn cfg_message(field: &str) -> FieldVisitorConfig {
    FieldVisitorConfig {
        strip_ansi_escapes: false,
        event_message_field: Some(String::from(field)),
    }
}

#[test]
fn integers_and_bools_land_in_data() {
    let fields = vec![
        FieldEntry { name: String::from("n"), value: FieldValue::I64(-3) },
        FieldEntry { name: String::from("u"), value: FieldValue::U64(42) },
        FieldEntry { name: String::from("flag"), value: FieldValue::Bool(true) },
    ];
    let r = extract(cfg_plain(), fields);
    assert_eq!(r.event_message, None);
    assert_eq!(r.json_values.get("n"), Some(&JsonValue::Int(-3)));
    assert_eq!(r.json_values.get("u"), Some(&JsonValue::Uint(42)));
    assert_eq!(r.json_values.get("flag"), Some(&JsonValue::Bool(true)));
}

#[test]
fn message_field_becomes_message_and_never_data() {
    let fields = vec![
        FieldEntry { name: String::from("msg"), value: FieldValue::Str(String::from("hello")) },
        FieldEntry { name: String::from("other"), value: FieldValue::Str(String::from("kept")) },
    ];
    let r = extract(cfg_message("msg"), fields);
    assert_eq!(r.event_message, Some(String::from("hello")));
    assert_eq!(r.json_values.get("msg"), None);
    assert_eq!(r.json_values.get("other"), Some(&JsonValue::Str(String::from("kept"))));
}

#[test]
fn message_field_stringifies_numbers() {
    let fields = vec![FieldEntry { name: String::from("msg"), value: FieldValue::U64(42) }];
    let r = extract(cfg_message("msg"), fields);
    assert_eq!(r.event_message, Some(String::from("42")));
    assert_eq!(r.json_values.get("msg"), None);
}

#[test]
fn message_field_stringifies_negative_and_bool() {
    let r = extract(
        cfg_message("msg"),
        vec![FieldEntry { name: String::from("msg"), value: FieldValue::I64(-17) }],
    );
    assert_eq!(r.event_message, Some(String::from("-17")));
    let r2 = extract(
        cfg_message("msg"),
        vec![FieldEntry { name: String::from("msg"), value: FieldValue::Bool(false) }],
    );
    assert_eq!(r2.event_message, Some(String::from("false")));
}

#[test]
fn reserved_trace_id_field_is_parsed_not_stored() {
    let fields = vec![FieldEntry {
        name: String::from("trace_id"),
        value: FieldValue::Str(String::from("0123456789abcdef0123456789abcdef")),
    }];
    let r = extract(cfg_plain(), fields);
    assert_eq!(r.trace_id, Some(0x0123456789abcdef0123456789abcdefu128));
    assert_eq!(r.json_values.get("trace_id"), None);
    assert_eq!(r.event_message, None);
}

#[test]
fn reserved_span_id_field_is_parsed_not_stored() {
    let fields = vec![FieldEntry {
        name: String::from("span_id"),
        value: FieldValue::Str(String::from("00000000000000aa")),
    }];
    let r = extract(cfg_plain(), fields);
    assert_eq!(r.span_id, Some(0xaa));
    assert_eq!(r.json_values.get("span_id"), None);
}

#[test]
fn invalid_trace_id_text_is_silently_dropped() {
    let fields = vec![FieldEntry {
        name: String::from("trace_id"),
        value: FieldValue::Str(String::from("not-hex-at-all")),
    }];
    let r = extract(cfg_plain(), fields);
    assert_eq!(r.trace_id, None);
    assert_eq!(r.json_values.get("trace_id"), None);
}

#[test]
fn reserved_names_take_priority_over_message_routing() {
    let fields = vec![FieldEntry {
        name: String::from("trace_id"),
        value: FieldValue::Str(String::from("0123456789abcdef0123456789abcdef")),
    }];
    let r = extract(cfg_message("trace_id"), fields);
    assert_eq!(r.event_message, None);
    assert_eq!(r.trace_id, Some(0x0123456789abcdef0123456789abcdefu128));
}

#[test]
fn error_values_append_descriptors_never_data() {
    let exc = Exception {
        ty: String::from("io::Error"),
        value: Some(String::from("broken pipe")),
        module: None,
        stacktrace: None,
    };
    let fields = vec![FieldEntry { name: String::from("error"), value: FieldValue::Error(vec![exc]) }];
    let r = extract(cfg_plain(), fields);
    assert_eq!(r.exceptions.len(), 1);
    assert_eq!(r.exceptions[0].ty, "io::Error");
    assert_eq!(r.exceptions[0].value, Some(String::from("broken pipe")));
    assert_eq!(r.json_values.get("error"), None);
}

#[test]
fn ansi_escapes_are_stripped_when_configured() {
    let cfg = FieldVisitorConfig { strip_ansi_escapes: true, event_message_field: None };
    let fields = vec![FieldEntry {
        name: String::from("text"),
        value: FieldValue::Str(String::from("\x1b[32mgreen\x1b[0m plain")),
    }];
    let r = extract(cfg, fields);
    assert_eq!(r.json_values.get("text"), Some(&JsonValue::Str(String::from("green plain"))));
}

#[test]
fn ansi_escapes_kept_when_not_configured() {
    let fields = vec![FieldEntry {
        name: String::from("text"),
        value: FieldValue::Str(String::from("\x1b[32mgreen\x1b[0m")),
    }];
    let r = extract(cfg_plain(), fields);
    assert_eq!(
        r.json_values.get("text"),
        Some(&JsonValue::Str(String::from("\x1b[32mgreen\x1b[0m")))
    );
}

#[test]
fn debug_values_are_routed_like_strings() {
    let mut visitor = FieldVisitor::new(cfg_message("msg"));
    visitor.record_debug(&String::from("msg"), String::from("Thing { x: 1 }"));
    visitor.record_debug(&String::from("detail"), String::from("[1, 2]"));
    let r = visitor.finish();
    assert_eq!(r.event_message, Some(String::from("Thing { x: 1 }")));
    assert_eq!(r.json_values.get("detail"), Some(&JsonValue::Str(String::from("[1, 2]"))));
}

#[test]
fn later_binding_replaces_earlier_one() {
    let fields = vec![
        FieldEntry { name: String::from("k"), value: FieldValue::U64(1) },
        FieldEntry { name: String::from("k"), value: FieldValue::U64(2) },
    ];
    let r = extract(cfg_plain(), fields);
    assert_eq!(r.json_values.len(), 1);
    assert_eq!(r.json_values.get("k"), Some(&JsonValue::Uint(2)));
}
