//! JSON Schema export for a registry of reflected type descriptions.
//!
//! Every registered type is mapped to one schema node; the nodes are sorted by
//! type path and wrapped into a single document, which is pretty-printed into
//! a byte sink. The mapping, the ordering and the document are verified
//! against mathematical models of the JSON values they produce.

pub mod bounds;
pub mod descriptor;
pub mod document;
pub mod export;
pub mod json;
pub mod laws;
pub mod schema;
pub mod text;

pub use bounds::{Bounds, BoundsEntry, BoundsProvider};
pub use descriptor::{Field, TypeDescriptor, TypeRegistration, Variant};
pub use export::{ExportError, ExportTypesExt, TypeRegistry};
pub use schema::export_type;
