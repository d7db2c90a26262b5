//! Fluent construction APIs for a small aggregate data model, verified.
//!
//! Two independent components build the same two-entity data model (a
//! [`model::Root`] aggregate with a nested [`model::Item`]): a *setter*
//! component that mutates an existing aggregate in place through chained
//! calls, and a *builder* component that accumulates pending field
//! assignments and overlays them onto a fresh default value. Both are
//! specified against mathematical views of the data model; the laws that
//! relate several calls are proved in [`laws`].

pub mod builder;
pub mod laws;
pub mod model;
pub mod setter;
pub mod strmap;
