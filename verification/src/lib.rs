//! A compile-time accessor generator, modelled as a pure pipeline.
//!
//! Given a structure whose fields carry declarative annotations (`get`,
//! `set`, `invalidates(field)`, `computed(function)`), the library parses
//! the annotations into an attribute record per field, checks the
//! cross-field soundness rules, and emits the accessor and memoization
//! source text for the structure.  A companion memoization cell supplies
//! the run-time contract the emitted accessors rely on.

pub mod attrs;
pub mod cell;
pub mod emit;
pub mod errors;
pub mod example;
pub mod fields;
pub mod soundness;

pub use cell::MemoCell;
pub use emit::generate;
pub use errors::GenError;
pub use example::Example;
