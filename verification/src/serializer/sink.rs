//! The two core serializing interfaces: the element that emits itself
//! and the sink it emits into.

use vstd::prelude::*;

verus! {

use crate::adapter::serializer::flushed;
use crate::errors::Error;
use crate::events::{AttrModel, EventModel, StartTagModel};

/// Element that can be serialized.
///
/// The spec functions describe what the element stands for on the
/// wire: its tag, its attributes, and the events of its content.
/// [`serialize`](Self::serialize) must emit exactly those, attributes
/// first.
pub trait Element {
    /// The element's tag.
    spec fn spec_tag(&self) -> Seq<char>;

    /// The element's attributes, in declaration order.
    spec fn spec_attrs(&self) -> Seq<AttrModel>;

    /// The events of the element's content (text and child elements),
    /// in declaration order.
    spec fn spec_inner(&self) -> Seq<EventModel>;

    /// Whether serializing this value can never fail: all of its
    /// codecs and nested parts are total.
    spec fn spec_serialize_total(&self) -> bool;

    /// Tag for the XML element.
    fn tag(&self) -> (t: String)
        ensures
            t@ == self.spec_tag(),
    ;

    /// Emits the element's attributes and content into the sink, whose
    /// pending opening is the element's own tag.
    fn serialize(&self, serializer: &mut crate::adapter::serializer::Serializer) -> (r: Result<
        (),
        Error,
    >)
        requires
            old(serializer).pending() is Some,
        ensures
            r is Ok ==> ({
                let q = old(serializer).pending()->Some_0;
                if self.spec_inner().len() == 0 {
                    final(serializer).pending() == Some(
                        StartTagModel { tag: q.tag, attrs: q.attrs + self.spec_attrs() },
                    ) && final(serializer).out() == old(serializer).out()
                } else {
                    final(serializer).pending() is None && final(serializer).out() == old(
                        serializer,
                    ).out() + seq![
                        EventModel::Start(
                            StartTagModel { tag: q.tag, attrs: q.attrs + self.spec_attrs() },
                        ),
                    ] + self.spec_inner()
                }
            }),
            final(serializer).out().len() >= old(serializer).out().len(),
            self.spec_serialize_total() ==> r is Ok,
    ;
}

/// The events a whole element stands for: a single self-closing tag
/// when it has no content, an opening, its content and a closing tag
/// otherwise.
pub open spec fn element_events<E: Element + ?Sized>(e: &E) -> Seq<EventModel> {
    if e.spec_inner().len() == 0 {
        seq![EventModel::Empty(StartTagModel { tag: e.spec_tag(), attrs: e.spec_attrs() })]
    } else {
        seq![EventModel::Start(StartTagModel { tag: e.spec_tag(), attrs: e.spec_attrs() })]
            + e.spec_inner() + seq![EventModel::End(e.spec_tag())]
    }
}

/// Interface to serialize an element into.
///
/// An element emits its attributes first, then inner text and child
/// elements; the pending opening says attributes are still accepted.
pub trait Serializer {
    /// The events emitted so far.
    spec fn emitted(&self) -> Seq<EventModel>;

    /// The pending element opening, still accepting attributes.
    spec fn opening(&self) -> Option<StartTagModel>;

    /// Add an attribute to the element currently being opened; only
    /// valid before any content was emitted.
    fn serialize_attribute(&mut self, key: &str, value: &str) -> (r: Result<(), Error>)
        requires
            old(self).opening() is Some,
        ensures
            r is Ok,
            final(self).emitted() == old(self).emitted(),
            final(self).opening() matches Some(p) && old(self).opening() matches Some(q) && p
                == (StartTagModel {
                tag: q.tag,
                attrs: q.attrs.push(AttrModel { key: key@, value: value@ }),
            }),
    ;

    /// Add a run of inner text to the element.
    fn serialize_text(&mut self, text: &str) -> (r: Result<(), Error>)
        ensures
            r is Ok,
            final(self).opening() is None,
            final(self).emitted() == old(self).emitted() + flushed(old(self).opening()) + seq![
                EventModel::Text(text@),
            ],
    ;

    /// Add a whole child element to the element.
    fn serialize_element<E: Element>(&mut self, element: &E) -> (r: Result<(), Error>)
        ensures
            r is Ok ==> final(self).opening() is None && final(self).emitted() == old(
                self,
            ).emitted() + flushed(old(self).opening()) + element_events(element),
            final(self).emitted().len() >= old(self).emitted().len(),
            element.spec_serialize_total() ==> r is Ok,
    ;
}

} // verus!
