//! In-process telemetry aggregation for a structured-instrumentation host.
//!
//! The library tracks the lifecycle of nested spans (create, enter, exit,
//! close), accumulates busy/idle timing per span, resolves trace identity
//! along ancestor chains, merges finished child spans into their nearest
//! tracked ancestor, and assembles a closed root span into a complete
//! transaction for a telemetry backend. Events are converted into backend
//! error events and breadcrumbs, correlated to the in-flight trace.

pub mod builder;
pub mod converters;
pub mod field_visitor;
pub mod ids;
pub mod laws;
pub mod protocol;
pub mod store;
pub mod subscriber;
pub mod timings;
pub mod trace_ext;
pub mod values;

pub use builder::CollectBuilder;
pub use subscriber::breadcrumb::BreadcrumbLayer;
pub use subscriber::event::EventLayer;
pub use subscriber::span::SpanLayer;
