//! The event-capture subscriber unit: turns instrumentation events into
//! backend error events.

use vstd::prelude::*;

use crate::converters::{default_convert_event, default_visitor_cfg, event_matches, EventRecord};
use crate::protocol::Event;
use crate::store::{store_wf, SpanStore};

verus! {

/// Captures events inside a span as backend error events.
pub struct EventLayer {
    pub enabled: bool,
}

impl EventLayer {
    pub fn new(enabled: bool) -> (r: EventLayer)
        ensures
            r.enabled == enabled,
    {
        EventLayer { enabled }
    }

    /// Whether this unit observes anything at all.
    pub fn enabled(&self) -> (r: bool)
        ensures
            r == self.enabled,
    {
        self.enabled
    }

    /// Notifies this layer that an event has occurred; the returned error
    /// event is handed to the backend client by the caller.
    pub fn on_event(&self, event: EventRecord, store: &SpanStore, current_span: Option<u64>) -> (r:
        Event)
        requires
            store_wf(store@),
        ensures
            event_matches(r@, event@, default_visitor_cfg(), store@, current_span, true),
    {
        default_convert_event(event, store, current_span)
    }
}

} // verus!
