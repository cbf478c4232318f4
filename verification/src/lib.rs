//! Generator core for typed HTTP bindings from a declarative API document.
//!
//! The pipeline resolves `$ref` pointers across the document, converts the
//! declared components into a normalized graph of named components, binds
//! every operation to its response variants and query parameters, and emits
//! the result as a structured tree of source nodes.  Rendering that tree to
//! text, as well as reading the document from disk, is left to callers.

pub mod binder;
pub mod document;
pub mod emit;
pub mod generator;
pub mod highway;
pub mod hooks;
pub mod naming;
pub mod printer;
pub mod resolver;
