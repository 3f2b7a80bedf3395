//! Structured-field extraction: one pass over the typed key/value fields of
//! an event or span-creation call, producing one normalized record.

use vstd::prelude::*;

use crate::converters::{ansi_stripped, strip_ansi_codes_from_string};
use crate::ids::{parse_span_id, parse_trace_id, spec_parse_span_id, spec_parse_trace_id};
use crate::protocol::{exceptions_v, Exception, ExceptionV};
use crate::values::{
    bool_to_string, fm_insert, i64_to_dec_string, spec_bool_str, spec_dec_i64, spec_dec_u64,
    str_eq, u64_to_dec_string, FieldMap, FieldSeq, JsonValue, ValueV,
};

verus! {

/// Configures how backend event and span data is recorded from host event
/// and span attributes.
pub struct FieldVisitorConfig {
    /// Strip ANSI escape sequences from string and debug-formatted values.
    pub strip_ansi_escapes: bool,
    /// When set, the value of the field with this name becomes the event
    /// message instead of an entry of the data map.
    pub event_message_field: Option<String>,
}

/// The mathematical value of a `FieldVisitorConfig`.
pub struct CfgV {
    pub strip_ansi_escapes: bool,
    pub event_message_field: Option<Seq<char>>,
}

impl View for FieldVisitorConfig {
    type V = CfgV;

    open spec fn view(&self) -> CfgV {
        CfgV {
            strip_ansi_escapes: self.strip_ansi_escapes,
            event_message_field: match &self.event_message_field {
                Some(s) => Some(s@),
                None => None,
            },
        }
    }
}

/// The normalized record produced by one extraction pass.
pub struct FieldVisitorResult {
    /// The event message, when a configured message field supplied one.
    pub event_message: Option<String>,
    /// The generic key/value data map.
    pub json_values: FieldMap,
    /// Structured error descriptors carried by error-typed fields.
    pub exceptions: Vec<Exception>,
    /// A caller-supplied trace identifier, when present and well-formed.
    pub trace_id: Option<u128>,
    /// A caller-supplied span identifier, when present and well-formed.
    pub span_id: Option<u64>,
}

/// The mathematical value of a `FieldVisitorResult`.
pub struct RecordV {
    pub message: Option<Seq<char>>,
    pub data: FieldSeq,
    pub exceptions: Seq<ExceptionV>,
    pub trace_id: Option<u128>,
    pub span_id: Option<u64>,
}

impl View for FieldVisitorResult {
    type V = RecordV;

    open spec fn view(&self) -> RecordV {
        RecordV {
            message: match &self.event_message {
                Some(s) => Some(s@),
                None => None,
            },
            data: self.json_values@,
            exceptions: exceptions_v(self.exceptions@),
            trace_id: self.trace_id,
            span_id: self.span_id,
        }
    }
}

/// The record before any field was visited.
pub open spec fn init_record() -> RecordV {
    RecordV {
        message: None,
        data: Seq::<(Seq<char>, ValueV)>::empty(),
        exceptions: Seq::<ExceptionV>::empty(),
        trace_id: None,
        span_id: None,
    }
}

impl FieldVisitorResult {
    pub fn new() -> (r: FieldVisitorResult)
        ensures
            r@ == init_record(),
    {
        let r = FieldVisitorResult {
            event_message: None,
            json_values: FieldMap::new(),
            exceptions: Vec::new(),
            trace_id: None,
            span_id: None,
        };
        proof {
            assert(exceptions_v(r.exceptions@) =~= Seq::<ExceptionV>::empty());
        }
        r
    }
}

/// One typed field value handed over by the host.
pub enum FieldValue {
    I64(i64),
    U64(u64),
    Bool(bool),
    Str(String),
    /// A value with no typed representation, already debug-formatted.
    Debug(String),
    /// An error-typed value, already turned into structured descriptors.
    Error(Vec<Exception>),
}

/// The mathematical value of a `FieldValue`.
pub enum FieldValueV {
    I64(i64),
    U64(u64),
    Bool(bool),
    Str(Seq<char>),
    Debug(Seq<char>),
    Error(Seq<ExceptionV>),
}

impl View for FieldValue {
    type V = FieldValueV;

    open spec fn view(&self) -> FieldValueV {
        match self {
            FieldValue::I64(x) => FieldValueV::I64(*x),
            FieldValue::U64(x) => FieldValueV::U64(*x),
            FieldValue::Bool(b) => FieldValueV::Bool(*b),
            FieldValue::Str(s) => FieldValueV::Str(s@),
            FieldValue::Debug(s) => FieldValueV::Debug(s@),
            FieldValue::Error(es) => FieldValueV::Error(exceptions_v(es@)),
        }
    }
}

/// One named field handed over by the host.
pub struct FieldEntry {
    pub name: String,
    pub value: FieldValue,
}

impl View for FieldEntry {
    type V = (Seq<char>, FieldValueV);

    open spec fn view(&self) -> (Seq<char>, FieldValueV) {
        (self.name@, self.value@)
    }
}

/// The views of a field list.
pub open spec fn fields_v(s: Seq<FieldEntry>) -> Seq<(Seq<char>, FieldValueV)> {
    s.map_values(|e: FieldEntry| e@)
}

/// The text after optional ANSI stripping.
pub open spec fn strip_if(cfg: CfgV, s: Seq<char>) -> Seq<char> {
    if cfg.strip_ansi_escapes {
        ansi_stripped(s)
    } else {
        s
    }
}

/// Message-field routing: a value whose field name matches the configured
/// message field becomes the message (as `text`) and is not duplicated into
/// the data map; any other value is inserted under its field name.
pub open spec fn route_value(
    cfg: CfgV,
    r: RecordV,
    name: Seq<char>,
    jv: ValueV,
    text: Seq<char>,
) -> RecordV {
    if cfg.event_message_field == Some(name) {
        RecordV { message: Some(text), ..r }
    } else {
        RecordV { data: fm_insert(r.data, name, jv), ..r }
    }
}

/// How one visited field transforms the record. The reserved `trace_id` and
/// `span_id` field names are intercepted before any other processing;
/// malformed identifier text leaves the identifier unset, never an error.
pub open spec fn visit_one(cfg: CfgV, r: RecordV, name: Seq<char>, v: FieldValueV) -> RecordV {
    match v {
        FieldValueV::I64(x) => route_value(cfg, r, name, ValueV::Int(x), spec_dec_i64(x as int)),
        FieldValueV::U64(x) => route_value(cfg, r, name, ValueV::Uint(x), spec_dec_u64(x as nat)),
        FieldValueV::Bool(b) => route_value(cfg, r, name, ValueV::Bool(b), spec_bool_str(b)),
        FieldValueV::Str(s) => {
            if name == "trace_id"@ {
                RecordV { trace_id: spec_parse_trace_id(s), ..r }
            } else if name == "span_id"@ {
                RecordV { span_id: spec_parse_span_id(s), ..r }
            } else {
                let sv = strip_if(cfg, s);
                route_value(cfg, r, name, ValueV::Str(sv), sv)
            }
        },
        FieldValueV::Debug(s) => {
            let sv = strip_if(cfg, s);
            route_value(cfg, r, name, ValueV::Str(sv), sv)
        },
        FieldValueV::Error(es) => RecordV { exceptions: r.exceptions + es, ..r },
    }
}

/// The record an extraction pass over `fields` produces, first field first.
pub open spec fn extract_model(cfg: CfgV, fields: Seq<(Seq<char>, FieldValueV)>) -> RecordV
    decreases fields.len(),
{
    if fields.len() == 0 {
        init_record()
    } else {
        visit_one(cfg, extract_model(cfg, fields.drop_last()), fields.last().0, fields.last().1)
    }
}

/// Walks typed fields one by one, accumulating the normalized record.
pub struct FieldVisitor {
    pub config: FieldVisitorConfig,
    pub result: FieldVisitorResult,
}

impl FieldVisitor {
    pub fn new(config: FieldVisitorConfig) -> (r: FieldVisitor)
        ensures
            r.config == config,
            r.result@ == init_record(),
    {
        FieldVisitor { config, result: FieldVisitorResult::new() }
    }

    /// Hands the accumulated record out.
    pub fn finish(self) -> (r: FieldVisitorResult)
        ensures
            r == self.result,
    {
        self.result
    }

    /// Records `text` as the event message when the field name matches the
    /// configured message field; says whether it did.
    pub fn try_record_event_message(&mut self, field_name: &String, text: String) -> (r: bool)
        ensures
            r == (old(self).config@.event_message_field == Some(field_name@)),
            final(self).config == old(self).config,
            r ==> final(self).result@ == (RecordV {
                message: Some(text@),
                ..old(self).result@
            }),
            !r ==> final(self).result == old(self).result,
    {
        let matched = match &self.config.event_message_field {
            Some(m) => str_eq(m.as_str(), field_name.as_str()),
            None => false,
        };
        if matched {
            self.result.event_message = Some(text);
            return true;
        }
        false
    }

    fn record_json_value(&mut self, field_name: &String, json_value: JsonValue)
        ensures
            final(self).config == old(self).config,
            final(self).result@ == (RecordV {
                data: fm_insert(old(self).result@.data, field_name@, json_value@),
                ..old(self).result@
            }),
    {
        self.result.json_values.insert(field_name.clone(), json_value);
    }

    /// Visits a signed 64-bit integer value.
    pub fn record_i64(&mut self, field_name: &String, value: i64)
        ensures
            final(self).config == old(self).config,
            final(self).result@ == visit_one(
                old(self).config@,
                old(self).result@,
                field_name@,
                FieldValueV::I64(value),
            ),
    {
        let text = i64_to_dec_string(value);
        if !self.try_record_event_message(field_name, text) {
            self.record_json_value(field_name, JsonValue::Int(value));
        }
    }

    /// Visits an unsigned 64-bit integer value.
    pub fn record_u64(&mut self, field_name: &String, value: u64)
        ensures
            final(self).config == old(self).config,
            final(self).result@ == visit_one(
                old(self).config@,
                old(self).result@,
                field_name@,
                FieldValueV::U64(value),
            ),
    {
        let text = u64_to_dec_string(value);
        if !self.try_record_event_message(field_name, text) {
            self.record_json_value(field_name, JsonValue::Uint(value));
        }
    }

    /// Visits a boolean value.
    pub fn record_bool(&mut self, field_name: &String, value: bool)
        ensures
            final(self).config == old(self).config,
            final(self).result@ == visit_one(
                old(self).config@,
                old(self).result@,
                field_name@,
                FieldValueV::Bool(value),
            ),
    {
        let text = bool_to_string(value);
        if !self.try_record_event_message(field_name, text) {
            self.record_json_value(field_name, JsonValue::Bool(value));
        }
    }

    /// Visits a string value. The reserved `trace_id` and `span_id` names
    /// are intercepted first; malformed identifiers are dropped silently.
    pub fn record_str(&mut self, field_name: &String, value: String)
        ensures
            final(self).config == old(self).config,
            final(self).result@ == visit_one(
                old(self).config@,
                old(self).result@,
                field_name@,
                FieldValueV::Str(value@),
            ),
    {
        if str_eq(field_name.as_str(), "trace_id") {
            self.result.trace_id = parse_trace_id(value.as_str());
            return ;
        }
        if str_eq(field_name.as_str(), "span_id") {
            self.result.span_id = parse_span_id(value.as_str());
            return ;
        }
        let sv = if self.config.strip_ansi_escapes {
            strip_ansi_codes_from_string(value.as_str())
        } else {
            value
        };
        let text = sv.clone();
        if !self.try_record_event_message(field_name, text) {
            self.record_json_value(field_name, JsonValue::Str(sv));
        }
    }

    /// Visits a value that only has a debug formatting, already formatted.
    pub fn record_debug(&mut self, field_name: &String, formatted_value: String)
        ensures
            final(self).config == old(self).config,
            final(self).result@ == visit_one(
                old(self).config@,
                old(self).result@,
                field_name@,
                FieldValueV::Debug(formatted_value@),
            ),
    {
        let sv = if self.config.strip_ansi_escapes {
            strip_ansi_codes_from_string(formatted_value.as_str())
        } else {
            formatted_value
        };
        let text = sv.clone();
        if !self.try_record_event_message(field_name, text) {
            self.record_json_value(field_name, JsonValue::Str(sv));
        }
    }

    /// Visits an error-typed value, already turned into descriptors; they
    /// are appended to the record's error list, never to the data map.
    pub fn record_error(&mut self, field_name: &String, values: Vec<Exception>)
        ensures
            final(self).config == old(self).config,
            final(self).result@ == visit_one(
                old(self).config@,
                old(self).result@,
                field_name@,
                FieldValueV::Error(exceptions_v(values@)),
            ),
    {
        let ghost added = values@;
        let mut values = values;
        self.result.exceptions.append(&mut values);
        proof {
            assert(exceptions_v(old(self).result.exceptions@ + added) =~= exceptions_v(
                old(self).result.exceptions@,
            ) + exceptions_v(added));
        }
    }
}

/// Runs one extraction pass over a field list, first field first.
pub fn extract(config: FieldVisitorConfig, fields: Vec<FieldEntry>) -> (r: FieldVisitorResult)
    ensures
        r@ == extract_model(config@, fields_v(fields@)),
{
    let ghost all = fields@;
    let mut fields = fields;
    let mut visitor = FieldVisitor::new(config);
    let ghost n = all.len();
    let ghost mut i: int = 0;
    proof {
        assert(fields@ =~= all.subrange(0, n as int));
        assert(fields_v(all.subrange(0, 0)) =~= Seq::<(Seq<char>, FieldValueV)>::empty());
    }
    while fields.len() > 0
        invariant
            n == all.len(),
            0 <= i <= n,
            fields@ == all.subrange(i, n as int),
            visitor.result@ == extract_model(visitor.config@, fields_v(all.subrange(0, i))),
            visitor.config@ == config@,
        decreases fields.len(),
    {
        let ghost pre = fields@;
        let entry = fields.remove(0);
        proof {
            assert(entry == pre[0]);
            assert(pre[0] == all[i]);
            assert(fields@ =~= all.subrange(i + 1, n as int));
        }
        match entry.value {
            FieldValue::I64(x) => visitor.record_i64(&entry.name, x),
            FieldValue::U64(x) => visitor.record_u64(&entry.name, x),
            FieldValue::Bool(b) => visitor.record_bool(&entry.name, b),
            FieldValue::Str(s) => visitor.record_str(&entry.name, s),
            FieldValue::Debug(s) => visitor.record_debug(&entry.name, s),
            FieldValue::Error(es) => visitor.record_error(&entry.name, es),
        }
        proof {
            let prefix = all.subrange(0, i);
            let prefix2 = all.subrange(0, i + 1);
            assert(prefix2.drop_last() =~= prefix);
            assert(fields_v(prefix2).drop_last() =~= fields_v(prefix));
            assert(fields_v(prefix2).last() == all[i]@);
            assert(visitor.result@ == extract_model(config@, fields_v(prefix2)));
        }
        proof {
            i = i + 1;
        }
    }
    proof {
        assert(all.subrange(0, n as int) =~= all);
    }
    visitor.finish()
}

} // verus!
