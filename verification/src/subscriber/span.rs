//! The span/transaction-capture subscriber unit: drives the span store
//! through create, enter, exit and close.

use vstd::prelude::*;

use crate::converters::default_visitor_cfg;
use crate::field_visitor::{extract_model, fields_v, FieldEntry};
use crate::protocol::Transaction;
use crate::store::{
    close_is_root, close_model, close_output_model, create_model, created_span_id,
    created_trace_id, enter_model, exit_model, has_id, now_ok, store_wf, SpanStore,
};

verus! {

/// Captures spans and submits each tracked root as one transaction when it
/// closes.
pub struct SpanLayer {
    pub enabled: bool,
}

impl SpanLayer {
    pub fn new(enabled: bool) -> (r: SpanLayer)
        ensures
            r.enabled == enabled,
    {
        SpanLayer { enabled }
    }

    /// Whether this unit observes anything at all.
    pub fn enabled(&self) -> (r: bool)
        ensures
            r == self.enabled,
    {
        self.enabled
    }

    /// Notifies this layer that a span was created: seeds its tracing
    /// extension unless one already exists.
    pub fn new_span(
        &self,
        store: &mut SpanStore,
        id: u64,
        fields: Vec<FieldEntry>,
        now_mono: u64,
        now_wall: u64,
    )
        requires
            store_wf(old(store)@),
            has_id(old(store)@, id),
        ensures
            store_wf(final(store)@),
            final(store)@ == create_model(
                old(store)@,
                id,
                extract_model(default_visitor_cfg(), fields_v(fields@)),
                created_trace_id(final(store)@, old(store)@, id),
                created_span_id(final(store)@, old(store)@, id),
                now_mono,
                now_wall,
            ),
    {
        store.create_span(id, fields, now_mono, now_wall);
    }

    /// Notifies this layer that a span with the given id was entered.
    pub fn on_enter(&self, store: &mut SpanStore, id: u64, now_mono: u64, now_wall: u64)
        requires
            store_wf(old(store)@),
            has_id(old(store)@, id),
            now_ok(old(store)@, id, now_mono),
        ensures
            store_wf(final(store)@),
            final(store)@ == enter_model(old(store)@, id, now_mono, now_wall),
    {
        store.enter_span(id, now_mono, now_wall);
    }

    /// Notifies this layer that a span with the given id was exited.
    pub fn on_exit(&self, store: &mut SpanStore, id: u64, now_mono: u64, now_wall: u64)
        requires
            store_wf(old(store)@),
            has_id(old(store)@, id),
            now_ok(old(store)@, id, now_mono),
        ensures
            store_wf(final(store)@),
            final(store)@ == exit_model(old(store)@, id, now_mono, now_wall),
    {
        store.exit_span(id, now_mono, now_wall);
    }

    /// Notifies this layer that a span closed for good: merges it into its
    /// nearest tracked ancestor, or returns the finished transaction when
    /// it was a tracked root.
    pub fn on_close(&self, store: &mut SpanStore, id: u64, now_mono: u64) -> (r: Option<
        Transaction,
    >)
        requires
            store_wf(old(store)@),
            has_id(old(store)@, id),
            now_ok(old(store)@, id, now_mono),
        ensures
            store_wf(final(store)@),
            final(store)@ == close_model(old(store)@, id, now_mono),
            (match r {
                Some(tx) => close_output_model(old(store)@, id, now_mono, tx@.event_id) == Some(
                    tx@,
                ),
                None => !close_is_root(old(store)@, id),
            }),
    {
        store.close_span(id, now_mono)
    }
}

} // verus!
