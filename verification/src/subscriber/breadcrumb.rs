//! The breadcrumb-capture subscriber unit: turns instrumentation events
//! into breadcrumbs.

use vstd::prelude::*;

use crate::converters::{breadcrumb_model, default_convert_breadcrumb, EventRecord};
use crate::field_visitor::CfgV;
use crate::protocol::Breadcrumb;

verus! {

/// Captures events inside a span as breadcrumbs.
pub struct BreadcrumbLayer {
    pub enabled: bool,
}

impl BreadcrumbLayer {
    pub fn new(enabled: bool) -> (r: BreadcrumbLayer)
        ensures
            r.enabled == enabled,
    {
        BreadcrumbLayer { enabled }
    }

    /// Whether this unit observes anything at all.
    pub fn enabled(&self) -> (r: bool)
        ensures
            r == self.enabled,
    {
        self.enabled
    }

    /// Notifies this layer that an event has occurred; the returned
    /// breadcrumb is attached to the current scope by the caller.
    pub fn on_event(&self, event: EventRecord) -> (r: Breadcrumb)
        ensures
            r@ == breadcrumb_model(
                event@,
                (CfgV { strip_ansi_escapes: true, event_message_field: None }),
            ),
    {
        default_convert_breadcrumb(event)
    }
}

} // verus!
