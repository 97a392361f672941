//! Adaptors binding the parse and serialize machinery to the
//! `quick-xml` streaming engine.
//!
//! These modules hold the whole trusted boundary of the library: a
//! handful of small wrappers that pull decoded events from a reader and
//! push events into a writer.  Everything driving those wrappers is
//! verified.

pub mod parser;
pub mod serializer;
