//! An owned, dynamically typed database value: scalar kinds, text and
//! nested lists, with typed accessors, list decomposition, null and type
//! introspection, text rendering and an idempotent release.
pub mod datum;
pub mod logical_type;
pub mod render;
pub mod value;
