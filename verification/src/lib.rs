//! A code generator for typed REST API clients.
//!
//! The crate reads an OpenAPI v3 document (already parsed into the plain
//! model of [`model`]) and emits Rust source text: one data-transfer struct
//! per usable component schema, and one request function with typed query,
//! path and header parameters per declared path operation.

pub mod bindgen;
pub mod idents;
pub mod model;
pub mod pathgen;
pub mod paths;
pub mod structgen;
pub mod text;
pub mod util;
