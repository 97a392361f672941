//! The two core parsing interfaces: the per-element parse state and the
//! event source that drives it.

use vstd::prelude::*;

verus! {

use crate::adapter::parser::Parser;
use crate::errors::Error;
use crate::events::{consumed_subtree, StartTag};

/// A state to parse exactly one element.
///
/// A driver tries implementors of this on an element it finds; the
/// first whose [`parse_element_start`](Self::parse_element_start)
/// returns `Some` parses it.  The driver then feeds every attribute of
/// the opening tag, then each text run and child element until the
/// closing tag, and finally calls
/// [`parse_element_finish`](Self::parse_element_finish).
pub trait ElementState: Sized {
    /// Once fully parsed this is the resulting output type.
    type Output;

    /// Whether a state would be created for an element with this tag.
    spec fn spec_accepts(tag: Seq<char>) -> bool;

    /// Whether the attribute callback can never fail: every attribute
    /// is accepted (an attribute-free element also qualifies
    /// trivially).
    spec fn spec_attrs_total() -> bool;

    /// Whether the text callback can never fail.
    spec fn spec_text_total() -> bool;

    /// Which error stands for this element never having appeared:
    /// what [`parse_error_not_found`](Self::parse_error_not_found)
    /// returns.
    spec fn spec_not_found(e: Error) -> bool;

    /// Try creating state to parse an element with the passed `tag`.
    fn parse_element_start(tag: &str) -> (r: Option<Self>)
        ensures
            r is Some <==> Self::spec_accepts(tag@),
    ;

    /// Parse one attribute into the state.
    fn parse_element_attribute(&mut self, key: &str, value: &str) -> (r: Result<(), Error>)
        ensures
            Self::spec_attrs_total() ==> r is Ok,
    ;

    /// Parse one text or CDATA run into the state.
    fn parse_element_inner_text(&mut self, text: String) -> (r: Result<(), Error>)
        ensures
            Self::spec_text_total() ==> r is Ok,
    ;

    /// Parse one child element whose opening tag the driver already
    /// consumed; the state must consume the child's remaining events
    /// from `parser` (or fail).
    fn parse_element_inner_node(&mut self, start: StartTag, closed: bool, parser: &mut Parser<
        '_,
    >) -> (r: Result<(), Error>)
        ensures
            r is Ok ==> final(parser).events().len() <= old(parser).events().len(),
            r is Ok ==> consumed_subtree(old(parser).events(), final(parser).events(), closed),
    ;

    /// Whether finishing can never fail: the element has no
    /// requirement that an empty state would violate.
    spec fn spec_finish_total() -> bool;

    /// Finish parsing the element.
    ///
    /// This is where required data is checked for presence and moved
    /// into the output value.
    fn parse_element_finish(self) -> (r: Result<Self::Output, Error>)
        ensures
            Self::spec_finish_total() ==> r is Ok,
    ;

    /// The error to report when no element was there to accept.
    ///
    /// [`ParseElementOnce`](crate::parser::ParseElementOnce) uses this
    /// when a required element never appeared.
    fn parse_error_not_found<T>() -> (r: Result<T, Error>)
        ensures
            r matches Err(e) && Self::spec_not_found(e) && (e is MissingUnknownElement
                || e is MissingElement),
    ;
}

/// A source ready to parse exactly one element (and nested data) into a
/// prepared state.
///
/// Users create the state with [`ElementState::parse_element_start`],
/// let the source drive it, and take the result with
/// [`ElementState::parse_element_finish`].
pub trait ElementParser {
    /// How much input the source has left, as a measure.
    spec fn source_len(&self) -> nat;

    /// Drives `state` through the attributes of `start` and, unless the
    /// element is self-closing (`closed`), through every inner event up
    /// to and including the element's closing tag.
    fn parse_element_state<E: ElementState>(
        &mut self,
        start: &StartTag,
        closed: bool,
        state: &mut E,
    ) -> (r: Result<(), Error>)
        ensures
            r is Ok ==> final(self).source_len() <= old(self).source_len(),
    ;
}

} // verus!
