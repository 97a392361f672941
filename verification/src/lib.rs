//! A strict, bidirectional mapping between XML documents and typed data.
//!
//! A data type describes how to parse itself from a stream of XML events
//! and how to serialize itself back.  Parsing builds each value up
//! incrementally — attribute by attribute, child by child — through a
//! per-type parse state; serializing walks the value once and emits
//! attributes, then children, in declaration order.  The streaming XML
//! engine itself is an external collaborator reached through a small
//! trusted boundary; everything above that boundary is verified.

use vstd::prelude::*;

pub mod adapter;
pub mod errors;
pub mod events;
pub mod parser;
pub mod sample;
pub mod serializer;
pub mod text;
mod traits;

verus! {

pub use crate::errors::Error;
pub use crate::traits::{Element, Inner};

/// Which unknown pieces of input an element type silently drops
/// instead of rejecting: child elements, attributes, text — three
/// independent switches, fixed when the type is defined.
#[derive(Debug, Clone, Copy, PartialEq, Eq, Structural)]
pub struct IgnoreUnknown {
    /// Drop unknown child elements (with their whole subtree).
    pub ignore_elements: bool,
    /// Drop unknown attributes.
    pub ignore_attributes: bool,
    /// Drop non-whitespace text no field claims.
    pub ignore_text: bool,
}

impl IgnoreUnknown {
    /// Whether unknown child elements are dropped.
    pub fn elements(&self) -> (r: bool)
        ensures
            r == self.ignore_elements,
    {
        self.ignore_elements
    }

    /// Whether unknown attributes are dropped.
    pub fn attributes(&self) -> (r: bool)
        ensures
            r == self.ignore_attributes,
    {
        self.ignore_attributes
    }

    /// Whether unclaimed non-whitespace text is dropped.
    pub fn text(&self) -> (r: bool)
        ensures
            r == self.ignore_text,
    {
        self.ignore_text
    }

    /// The same policy for all three kinds of unknown input.
    pub fn all(v: bool) -> (p: Self)
        ensures
            p.ignore_elements == v,
            p.ignore_attributes == v,
            p.ignore_text == v,
    {
        IgnoreUnknown { ignore_elements: v, ignore_attributes: v, ignore_text: v }
    }
}

impl Default for IgnoreUnknown {
    /// By default nothing unknown is dropped: everything unclaimed is
    /// an error.
    fn default() -> (p: Self)
        ensures
            !p.ignore_elements && !p.ignore_attributes && !p.ignore_text,
    {
        IgnoreUnknown::all(false)
    }
}

} // verus!
