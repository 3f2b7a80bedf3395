pub mod breadcrumb;
pub mod event;
pub mod span;
