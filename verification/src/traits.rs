//! The combined capability traits: a type usable in both directions.

use vstd::prelude::*;

verus! {

/// Combining [`crate::parser::Element`] and
/// [`crate::serializer::Element`].
pub trait Element: crate::parser::Element + crate::serializer::Element {

}

impl<E: crate::parser::Element + crate::serializer::Element> Element for E {

}

/// Combining [`crate::parser::Inner`] and
/// [`crate::serializer::Inner`].
pub trait Inner: crate::parser::Inner + crate::serializer::Inner {

}

impl<I: crate::parser::Inner + crate::serializer::Inner> Inner for I {

}

} // verus!
