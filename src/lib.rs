//! Source generation for variant accessors on enums.
//!
//! Given a description of an enum (its name, generics and variants), this
//! library writes the Rust source of an `impl` block that gives every variant
//! an `is_*` predicate and `try_as_*`, `try_as_*_mut` and `try_into_*`
//! accessors, together with a companion error type that records which variant
//! was expected and which one was found.

pub mod accessors;
pub mod error_type;
pub mod generate;
pub mod laws;
pub mod model;
pub mod naming;
pub mod shape;
pub mod text;
pub use generate::enum_try_as_inner;
