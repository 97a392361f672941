//! Traits and helper structs to serialize XML.
//!
//! A data type mapping to a single element implements [`FixedElement`]
//! (fixed tag) or [`Element`] (instance-computed tag); a type standing
//! for several sibling elements implements [`Inner`].  Serializing
//! walks the value once: attributes first, then children and text, in
//! declaration order, into a [`Serializer`] sink.

mod fixed_element;
mod inner;
mod sink;
mod value;

pub use self::fixed_element::FixedElement;
pub use self::inner::{events_of_list, Inner};
pub use self::sink::{element_events, Element, Serializer};
pub use self::value::{Value, ValueDefault, ValueString};
