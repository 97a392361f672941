//! The state machinery for "what can appear as an element's children":
//! single required or optional children, repeated children, raw text,
//! and a whole optional inner group.
//!
//! The element state offers every child or text event to its field
//! states strictly in declaration order; the first that claims it wins
//! and no later field is tried.  A state that does not recognize an
//! event must hand it back unchanged through
//! [`InnerParseResult::Next`].

use vstd::prelude::*;

verus! {

use crate::adapter::parser::Parser;
use crate::errors::Error;
use crate::events::{consumed_subtree, StartTag};
use crate::parser::state::{ElementParser, ElementState};
use crate::parser::default::{Element, Inner};

/// Result of [`InnerState`] parse methods: whether the state claimed
/// the input or another state needs to take it.
#[derive(Debug)]
pub enum InnerParseResult<Input> {
    /// The state consumed the input.
    Success,
    /// The state declined; the input is handed back untouched.
    Next(Input),
}

/// State to parse multiple elements (on the same level).
pub trait InnerState: Sized + Default {
    /// Once fully parsed this is the resulting output type.
    type Output;

    /// Try parsing an element whose opening the driver consumed.
    ///
    /// A state that does not recognize the tag must not fail: it
    /// returns the opening through `Next`, consuming nothing.
    fn parse_inner_node(&mut self, start: StartTag, closed: bool, parser: &mut Parser<'_>) -> (r:
        Result<InnerParseResult<StartTag>, Error>)
        ensures
            r is Ok ==> final(parser).events().len() <= old(parser).events().len(),
            (r matches Ok(InnerParseResult::Next(s)) ==> s@ == start@ && final(parser).events()
                == old(parser).events() && *final(self) == *old(self)),
            (r matches Ok(InnerParseResult::Success) ==> consumed_subtree(
                old(parser).events(),
                final(parser).events(),
                closed,
            )),
    {
        let _ = closed;
        let _ = parser;
        Ok(InnerParseResult::Next(start))
    }

    /// Try parsing a run of inner text.
    ///
    /// A state that does not take text returns it through `Next`; one
    /// that takes text may still fail on text it cannot convert.
    fn parse_inner_text(&mut self, text: String) -> (r: Result<InnerParseResult<String>, Error>)
        ensures
            (r matches Ok(InnerParseResult::Next(t)) ==> t@ == text@ && *final(self) == *old(self)),
    {
        Ok(InnerParseResult::Next(text))
    }

    /// Finish parsing.
    fn parse_inner_finish(self) -> (r: Result<Self::Output, Error>);
}

/// `String` as an [`InnerState`] collects every run of inner text,
/// concatenated in document order, whitespace included.
impl InnerState for String {
    type Output = String;

    fn parse_inner_text(&mut self, text: String) -> (r: Result<InnerParseResult<String>, Error>)
        ensures
            r matches Ok(InnerParseResult::Success),
            final(self)@ == old(self)@ + text@,
    {
        self.append(text.as_str());
        Ok(InnerParseResult::Success)
    }

    fn parse_inner_finish(self) -> (r: Result<String, Error>)
        ensures
            r matches Ok(o) && o == self,
    {
        Ok(self)
    }
}

impl Inner for String {
    type ParseState = String;
}

/// [`InnerState`] to parse a single required element: exactly one
/// occurrence is claimed; a second occurrence is declined so that a
/// later field (or the unknown-data policy) takes it; absence at finish
/// is an error.
pub struct ParseElementOnce<E: ElementState> {
    /// The parsed element, once it appeared.
    pub element: Option<E::Output>,
}

impl<E: ElementState> Default for ParseElementOnce<E> {
    fn default() -> (r: Self)
        ensures
            r.element is None,
    {
        ParseElementOnce { element: None }
    }
}

impl<E: ElementState> InnerState for ParseElementOnce<E> {
    type Output = E::Output;

    fn parse_inner_node(&mut self, start: StartTag, closed: bool, parser: &mut Parser<'_>) -> (r:
        Result<InnerParseResult<StartTag>, Error>)
        ensures
            (r matches Ok(InnerParseResult::Success) ==> old(self).element is None && final(self).element is Some && E::spec_accepts(start@.tag)),
            (old(self).element is None && E::spec_accepts(start@.tag) && E::spec_finish_total()
                && closed && (start@.attrs.len() == 0 || E::spec_attrs_total()) ==> r matches Ok(
                InnerParseResult::Success,
            )),
            (r matches Ok(InnerParseResult::Next(_)) ==> !(old(self).element is None && E::spec_accepts(start@.tag))),
            (r is Err ==> old(self).element is None && E::spec_accepts(start@.tag)),
    {
        if self.element.is_none() {
            match E::parse_element_start(start.tag.as_str()) {
                Some(mut state) => {
                    parser.parse_element_state(&start, closed, &mut state)?;
                    let out = state.parse_element_finish()?;
                    self.element = Some(out);
                    return Ok(InnerParseResult::Success);
                },
                None => {},
            }
        }
        Ok(InnerParseResult::Next(start))
    }

    fn parse_inner_text(&mut self, text: String) -> (r: Result<InnerParseResult<String>, Error>)
        ensures
            r matches Ok(InnerParseResult::Next(t)) && t == text && *final(self) == *old(self),
    {
        Ok(InnerParseResult::Next(text))
    }

    fn parse_inner_finish(self) -> (r: Result<E::Output, Error>)
        ensures
            self.element matches Some(v) ==> (r matches Ok(o) && o == v),
            self.element is None ==> (r matches Err(e) && E::spec_not_found(e) && (
            e is MissingUnknownElement || e is MissingElement)),
    {
        match self.element {
            Some(o) => Ok(o),
            None => E::parse_error_not_found(),
        }
    }
}

impl<E: Element> Inner for E {
    type ParseState = ParseElementOnce<E::ParseState>;
}

/// [`InnerState`] to parse a single optional element: like
/// [`ParseElementOnce`], but absence at finish yields `None`.
pub struct ParseElementOptional<E: ElementState> {
    /// The parsed element, if it appeared.
    pub element: Option<E::Output>,
}

impl<E: ElementState> Default for ParseElementOptional<E> {
    fn default() -> (r: Self)
        ensures
            r.element is None,
    {
        ParseElementOptional { element: None }
    }
}

impl<E: ElementState> InnerState for ParseElementOptional<E> {
    type Output = Option<E::Output>;

    fn parse_inner_node(&mut self, start: StartTag, closed: bool, parser: &mut Parser<'_>) -> (r:
        Result<InnerParseResult<StartTag>, Error>)
        ensures
            (r matches Ok(InnerParseResult::Success) ==> old(self).element is None && final(self).element is Some && E::spec_accepts(start@.tag)),
            (old(self).element is None && E::spec_accepts(start@.tag) && E::spec_finish_total()
                && closed && (start@.attrs.len() == 0 || E::spec_attrs_total()) ==> r matches Ok(
                InnerParseResult::Success,
            )),
            (r matches Ok(InnerParseResult::Next(_)) ==> !(old(self).element is None && E::spec_accepts(start@.tag))),
            (r is Err ==> old(self).element is None && E::spec_accepts(start@.tag)),
    {
        if self.element.is_none() {
            match E::parse_element_start(start.tag.as_str()) {
                Some(mut state) => {
                    parser.parse_element_state(&start, closed, &mut state)?;
                    let out = state.parse_element_finish()?;
                    self.element = Some(out);
                    return Ok(InnerParseResult::Success);
                },
                None => {},
            }
        }
        Ok(InnerParseResult::Next(start))
    }

    fn parse_inner_text(&mut self, text: String) -> (r: Result<InnerParseResult<String>, Error>)
        ensures
            r matches Ok(InnerParseResult::Next(t)) && t == text && *final(self) == *old(self),
    {
        Ok(InnerParseResult::Next(text))
    }

    fn parse_inner_finish(self) -> (r: Result<Option<E::Output>, Error>)
        ensures
            r matches Ok(o) && o == self.element,
    {
        Ok(self.element)
    }
}

impl<E: Element> Inner for Option<E> {
    type ParseState = ParseElementOptional<E::ParseState>;
}

/// [`InnerState`] to parse repeated occurrences of one element type:
/// every matching occurrence is appended, in document order, with no
/// upper bound.
pub struct ParseElementList<E: ElementState> {
    /// The elements parsed so far, in document order.
    pub elements: Vec<E::Output>,
}

impl<E: ElementState> Default for ParseElementList<E> {
    fn default() -> (r: Self)
        ensures
            r.elements@ == Seq::<E::Output>::empty(),
    {
        let r = ParseElementList { elements: Vec::new() };
        proof {
            assert(r.elements@ =~= Seq::<E::Output>::empty());
        }
        r
    }
}

impl<E: ElementState> InnerState for ParseElementList<E> {
    type Output = Vec<E::Output>;

    fn parse_inner_node(&mut self, start: StartTag, closed: bool, parser: &mut Parser<'_>) -> (r:
        Result<InnerParseResult<StartTag>, Error>)
        ensures
            (r matches Ok(InnerParseResult::Success) ==> final(self).elements@.len() == old(self).elements@.len() + 1 && final(self).elements@.drop_last() == old(self).elements@ && E::spec_accepts(start@.tag)),
            (E::spec_accepts(start@.tag) && E::spec_finish_total() && closed && (
            start@.attrs.len() == 0 || E::spec_attrs_total()) ==> r matches Ok(
                InnerParseResult::Success,
            )),
            (r matches Ok(InnerParseResult::Next(_)) ==> !E::spec_accepts(start@.tag)),
            (r is Err ==> E::spec_accepts(start@.tag)),
    {
        match E::parse_element_start(start.tag.as_str()) {
            Some(mut state) => {
                parser.parse_element_state(&start, closed, &mut state)?;
                let out = state.parse_element_finish()?;
                self.elements.push(out);
                proof {
                    assert(self.elements@.drop_last() =~= old(self).elements@);
                }
                Ok(InnerParseResult::Success)
            },
            None => Ok(InnerParseResult::Next(start)),
        }
    }

    fn parse_inner_text(&mut self, text: String) -> (r: Result<InnerParseResult<String>, Error>)
        ensures
            r matches Ok(InnerParseResult::Next(t)) && t == text && *final(self) == *old(self),
    {
        Ok(InnerParseResult::Next(text))
    }

    fn parse_inner_finish(self) -> (r: Result<Vec<E::Output>, Error>)
        ensures
            r matches Ok(o) && o == self.elements,
    {
        Ok(self.elements)
    }
}

impl<E: Element> Inner for Vec<E> {
    type ParseState = ParseElementList<E::ParseState>;
}

/// [`InnerState`] wrapping another inner state so that the whole group
/// is optional as a unit: the first event the wrapped state accepts
/// activates it; once active, every later event goes to the live state;
/// never activated, finish yields `None`.
pub struct ParseInnerOptional<I: InnerState> {
    /// The live wrapped state, once an event activated it.
    pub inner: Option<I>,
}

impl<I: InnerState> Default for ParseInnerOptional<I> {
    fn default() -> (r: Self)
        ensures
            r.inner is None,
    {
        ParseInnerOptional { inner: None }
    }
}

impl<I: InnerState> InnerState for ParseInnerOptional<I> {
    type Output = Option<I::Output>;

    fn parse_inner_node(&mut self, start: StartTag, closed: bool, parser: &mut Parser<'_>) -> (r:
        Result<InnerParseResult<StartTag>, Error>)
        ensures
            (r matches Ok(InnerParseResult::Success) ==> final(self).inner is Some),
    {
        if self.inner.is_none() {
            let mut state = I::default();
            match state.parse_inner_node(start, closed, parser)? {
                InnerParseResult::Success => {
                    self.inner = Some(state);
                    Ok(InnerParseResult::Success)
                },
                InnerParseResult::Next(s) => Ok(InnerParseResult::Next(s)),
            }
        } else {
            let mut state = self.inner.take().unwrap();
            let r = state.parse_inner_node(start, closed, parser);
            self.inner = Some(state);
            match r? {
                InnerParseResult::Success => Ok(InnerParseResult::Success),
                InnerParseResult::Next(s) => Ok(InnerParseResult::Next(s)),
            }
        }
    }

    fn parse_inner_text(&mut self, text: String) -> (r: Result<InnerParseResult<String>, Error>)
        ensures
            (r matches Ok(InnerParseResult::Success) ==> final(self).inner is Some),
    {
        if self.inner.is_none() {
            let mut state = I::default();
            match state.parse_inner_text(text)? {
                InnerParseResult::Success => {
                    self.inner = Some(state);
                    Ok(InnerParseResult::Success)
                },
                InnerParseResult::Next(t) => Ok(InnerParseResult::Next(t)),
            }
        } else {
            let mut state = self.inner.take().unwrap();
            let r = state.parse_inner_text(text);
            self.inner = Some(state);
            match r? {
                InnerParseResult::Success => Ok(InnerParseResult::Success),
                InnerParseResult::Next(t) => Ok(InnerParseResult::Next(t)),
            }
        }
    }

    fn parse_inner_finish(self) -> (r: Result<Option<I::Output>, Error>)
        ensures
            self.inner is None ==> (r matches Ok(o) && o is None),
            self.inner is Some ==> (r matches Ok(o) ==> o is Some),
    {
        match self.inner {
            Some(state) => match state.parse_inner_finish() {
                Ok(o) => Ok(Some(o)),
                Err(e) => Err(e),
            },
            None => Ok(None),
        }
    }
}

} // verus!
