//! Composition of the subscriber units.

use vstd::prelude::*;

use crate::subscriber::breadcrumb::BreadcrumbLayer;
use crate::subscriber::event::EventLayer;
use crate::subscriber::span::SpanLayer;

verus! {

pub struct Config {}

/// Composes the three subscriber units, each independently toggleable:
/// `event_layer` captures events inside a span as error events,
/// `span_layer` captures spans as transactions when the root span closes,
/// `breadcrumb_layer` captures events as breadcrumbs inside a span.
pub struct CollectBuilder {
    pub event_layer: bool,
    pub span_layer: bool,
    pub breadcrumb_layer: bool,
}

impl CollectBuilder {
    /// All three units on.
    pub fn new() -> (r: CollectBuilder)
        ensures
            r.event_layer,
            r.span_layer,
            r.breadcrumb_layer,
    {
        CollectBuilder { event_layer: true, span_layer: true, breadcrumb_layer: true }
    }

    pub fn use_event_layer(self, opt: bool) -> (r: CollectBuilder)
        ensures
            r == (CollectBuilder { event_layer: opt, ..self }),
    {
        let mut this = self;
        this.event_layer = opt;
        this
    }

    pub fn use_span_layer(self, opt: bool) -> (r: CollectBuilder)
        ensures
            r == (CollectBuilder { span_layer: opt, ..self }),
    {
        let mut this = self;
        this.span_layer = opt;
        this
    }

    pub fn use_breadcrumb_layer(self, opt: bool) -> (r: CollectBuilder)
        ensures
            r == (CollectBuilder { breadcrumb_layer: opt, ..self }),
    {
        let mut this = self;
        this.breadcrumb_layer = opt;
        this
    }

    /// The three subscriber units, toggled as configured; attaching them to
    /// the host framework's registry is the embedder's part.
    pub fn build(&self) -> (r: (EventLayer, BreadcrumbLayer, SpanLayer))
        ensures
            r.0.enabled == self.event_layer,
            r.1.enabled == self.breadcrumb_layer,
            r.2.enabled == self.span_layer,
    {
        (
            EventLayer::new(self.event_layer),
            BreadcrumbLayer::new(self.breadcrumb_layer),
            SpanLayer::new(self.span_layer),
        )
    }
}

} // verus!
