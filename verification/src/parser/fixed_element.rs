//! Convenience trait for elements whose tag is fixed at definition
//! time.

use vstd::prelude::*;

verus! {

use crate::adapter::parser::Parser;
use crate::errors::Error;
use crate::events::{consumed_subtree, StartTag};
use crate::parser::state::ElementState;

/// Implement this instead of [`ElementState`] when the element has a
/// fixed tag: the state is created exactly when the observed tag equals
/// [`tag`](Self::tag), and a missing required element is reported under
/// that tag.
pub trait FixedElementState: Default + Sized {
    /// Same as [`ElementState::Output`].
    type Output;

    /// The fixed tag as a character sequence.
    spec fn spec_tag() -> Seq<char>;

    /// The fixed tag.
    fn tag() -> (t: &'static str)
        ensures
            t@ == Self::spec_tag(),
    ;

    /// Same as [`ElementState::parse_element_attribute`].
    fn parse_element_attribute(&mut self, key: &str, value: &str) -> (r: Result<(), Error>)
        ensures
            Self::spec_attrs_total() ==> r is Ok,
    ;

    /// Same as [`ElementState::parse_element_inner_text`].
    fn parse_element_inner_text(&mut self, text: String) -> (r: Result<(), Error>)
        ensures
            Self::spec_text_total() ==> r is Ok,
    ;

    /// Same as [`ElementState::parse_element_inner_node`].
    fn parse_element_inner_node(&mut self, start: StartTag, closed: bool, parser: &mut Parser<
        '_,
    >) -> (r: Result<(), Error>)
        ensures
            r is Ok ==> final(parser).events().len() <= old(parser).events().len(),
            r is Ok ==> consumed_subtree(old(parser).events(), final(parser).events(), closed),
    ;

    /// Same as [`ElementState::spec_attrs_total`].
    spec fn spec_attrs_total() -> bool;

    /// Same as [`ElementState::spec_text_total`].
    spec fn spec_text_total() -> bool;

    /// Same as [`ElementState::spec_finish_total`].
    spec fn spec_finish_total() -> bool;

    /// Same as [`ElementState::parse_element_finish`].
    fn parse_element_finish(self) -> (r: Result<Self::Output, Error>)
        ensures
            Self::spec_finish_total() ==> r is Ok,
    ;
}

impl<E: FixedElementState> ElementState for E {
    type Output = <E as FixedElementState>::Output;

    /// A fixed-tag state accepts exactly its own tag.
    open spec fn spec_accepts(tag: Seq<char>) -> bool {
        tag == E::spec_tag()
    }

    open spec fn spec_attrs_total() -> bool {
        <E as FixedElementState>::spec_attrs_total()
    }

    open spec fn spec_text_total() -> bool {
        <E as FixedElementState>::spec_text_total()
    }

    open spec fn spec_finish_total() -> bool {
        <E as FixedElementState>::spec_finish_total()
    }

    /// A fixed-tag element that never appeared is reported under its
    /// own tag.
    open spec fn spec_not_found(e: Error) -> bool {
        e matches Error::MissingElement { tag: t } && t@ == E::spec_tag()
    }

    fn parse_element_start(tag: &str) -> (r: Option<Self>) {
        if crate::text::str_eq(tag, E::tag()) {
            Some(E::default())
        } else {
            None
        }
    }

    fn parse_element_attribute(&mut self, key: &str, value: &str) -> (r: Result<(), Error>) {
        <E as FixedElementState>::parse_element_attribute(self, key, value)
    }

    fn parse_element_inner_text(&mut self, text: String) -> (r: Result<(), Error>) {
        <E as FixedElementState>::parse_element_inner_text(self, text)
    }

    fn parse_element_inner_node(&mut self, start: StartTag, closed: bool, parser: &mut Parser<
        '_,
    >) -> (r: Result<(), Error>) {
        <E as FixedElementState>::parse_element_inner_node(self, start, closed, parser)
    }

    fn parse_element_finish(self) -> (r: Result<Self::Output, Error>) {
        <E as FixedElementState>::parse_element_finish(self)
    }

    fn parse_error_not_found<T>() -> (r: Result<T, Error>)
        ensures
            r matches Err(e) && e matches Error::MissingElement { tag: t } && t@ == E::spec_tag(),
    {
        Err(crate::errors::missing_element(E::tag()))
    }
}

} // verus!
