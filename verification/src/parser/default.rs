//! Linking a data type to its default parse state.

use vstd::prelude::*;

verus! {

use crate::parser::state::ElementState;
use crate::parser::inner::InnerState;

/// Parsable element: links the default state type used to parse this
/// type from a single element.
pub trait Element: Sized {
    /// Parse state to use for this element.
    type ParseState: ElementState<Output = Self>;
}

/// Type alias to find the default parse state for an [`Element`].
pub type ElementDefaultParseState<E> = <E as Element>::ParseState;

/// Parsable inner data (multiple elements): links the default state
/// type used to parse this type from an element's children.
pub trait Inner: Sized {
    /// Parse state to use for this inner data.
    type ParseState: InnerState<Output = Self>;
}

/// Type alias to find the default parse state for an [`Inner`].
pub type InnerDefaultParseState<I> = <I as Inner>::ParseState;

} // verus!
