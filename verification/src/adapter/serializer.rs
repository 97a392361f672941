//! The push side of the engine boundary: a [`Serializer`] wraps a
//! `quick_xml::Writer` over an in-memory buffer and emits events.
//!
//! The writer is modelled by the sequence of events handed to it so far
//! ([`written`]).  A start tag is not pushed at once: its attributes
//! accumulate in a pending opening, which is flushed as a start event
//! the moment content follows, or becomes a self-closing empty event if
//! none ever does.  This enforces the wire constraint that attributes
//! cannot follow content.

use vstd::prelude::*;

use quick_xml::events::Event as QEvent;

verus! {

use crate::errors::Error;
use crate::events::{Event, EventModel, StartTag, StartTagModel};

#[verifier::external_type_specification]
#[verifier::external_body]
#[verifier::reject_recursive_types(W)]
pub struct ExWriter<W>(quick_xml::Writer<W>);

/// The events handed to a writer so far, in order.  This names the
/// writer's call history, not something recoverable from its bytes: an
/// empty text run contributes no bytes, and adjacent text runs leave
/// the same bytes as one merged run.  The history is a consistent
/// model because the writer type is opaque here — no two writers with
/// different histories can ever be proved equal — and [`rendering`]
/// maps it to the bytes' text.
pub uninterp spec fn written(w: quick_xml::Writer<Vec<u8>>) -> Seq<EventModel>;

/// Relies on `quick_xml::Writer::new`: a fresh writer over an empty
/// buffer has written nothing.
#[verifier::external_body]
fn writer_new() -> (w: quick_xml::Writer<Vec<u8>>)
    ensures
        written(w) == Seq::<EventModel>::empty(),
{
    quick_xml::Writer::new(Vec::new())
}

/// Relies on `quick_xml::Writer::write_event` with a start event built
/// by `BytesStart::new` and `BytesStart::push_attribute`: writes the
/// complete opening tag, attributes in order, values escaped.  The
/// writer only propagates its sink's failures, and writing to a
/// `Vec<u8>` always succeeds.
#[verifier::external_body]
fn write_start(w: &mut quick_xml::Writer<Vec<u8>>, t: &StartTag) -> (r: Result<(), Error>)
    ensures
        r is Ok,
        written(*final(w)) == written(*old(w)).push(EventModel::Start(t@)),
{
    let mut b = quick_xml::events::BytesStart::new(t.tag.as_str());
    for a in t.attrs.iter() {
        b.push_attribute((a.key.as_str(), a.value.as_str()));
    }
    w.write_event(QEvent::Start(b)).map_err(|e| Error::Xml { msg: e.to_string() })
}

/// Relies on `quick_xml::Writer::write_event` with an empty event:
/// writes a complete self-closing tag, attributes in order; cannot
/// fail on the in-memory sink.
#[verifier::external_body]
fn write_empty(w: &mut quick_xml::Writer<Vec<u8>>, t: &StartTag) -> (r: Result<(), Error>)
    ensures
        r is Ok,
        written(*final(w)) == written(*old(w)).push(EventModel::Empty(t@)),
{
    let mut b = quick_xml::events::BytesStart::new(t.tag.as_str());
    for a in t.attrs.iter() {
        b.push_attribute((a.key.as_str(), a.value.as_str()));
    }
    w.write_event(QEvent::Empty(b)).map_err(|e| Error::Xml { msg: e.to_string() })
}

/// Relies on `quick_xml::Writer::write_event` with an end event built by
/// `BytesEnd::new`; cannot fail on the in-memory sink.
#[verifier::external_body]
fn write_end(w: &mut quick_xml::Writer<Vec<u8>>, tag: &str) -> (r: Result<(), Error>)
    ensures
        r is Ok,
        written(*final(w)) == written(*old(w)).push(EventModel::End(tag@)),
{
    let b = quick_xml::events::BytesEnd::new(tag);
    w.write_event(QEvent::End(b)).map_err(|e| Error::Xml { msg: e.to_string() })
}

/// Relies on `quick_xml::Writer::write_event` with a text event built by
/// `BytesText::new`: the text is escaped on the wire and an empty text
/// writes nothing; cannot fail on the in-memory sink.
#[verifier::external_body]
fn write_text(w: &mut quick_xml::Writer<Vec<u8>>, text: &str) -> (r: Result<(), Error>)
    ensures
        r is Ok,
        written(*final(w)) == written(*old(w)).push(EventModel::Text(text@)),
{
    let b = quick_xml::events::BytesText::new(text);
    w.write_event(QEvent::Text(b)).map_err(|e| Error::Xml { msg: e.to_string() })
}

/// Relies on `quick_xml::Writer::write_event` with the declaration
/// `<?xml version="1.1" encoding="utf-8"?>` built by `BytesDecl::new`;
/// cannot fail on the in-memory sink.
#[verifier::external_body]
fn write_decl(w: &mut quick_xml::Writer<Vec<u8>>) -> (r: Result<(), Error>)
    ensures
        r is Ok,
        written(*final(w)) == written(*old(w)).push(EventModel::Decl),
{
    let b = quick_xml::events::BytesDecl::new("1.1", Some("utf-8"), None);
    w.write_event(QEvent::Decl(b)).map_err(|e| Error::Xml { msg: e.to_string() })
}

/// The text that the engine renders for a sequence of events: a
/// function of the events alone.
pub uninterp spec fn rendering(evs: Seq<EventModel>) -> Seq<char>;

/// Relies on `quick_xml::Writer::into_inner`: hands back the bytes
/// written so far as text — the engine's rendering of exactly the
/// events handed to the writer.
#[verifier::external_body]
fn writer_take(w: quick_xml::Writer<Vec<u8>>) -> (s: String)
    ensures
        s@ == rendering(written(w)),
{
    String::from_utf8_lossy(&w.into_inner()).into_owned()
}

/// The single pending opening, flushed as a start event once content
/// follows it.
pub open spec fn flushed(p: Option<StartTagModel>) -> Seq<EventModel> {
    match p {
        Option::None => Seq::<EventModel>::empty(),
        Option::Some(t) => seq![EventModel::Start(t)],
    }
}

/// Serializer adaptor for `quick_xml::Writer`: emits a document into an
/// in-memory buffer.
pub struct Serializer {
    writer: quick_xml::Writer<Vec<u8>>,
    pend: Option<StartTag>,
}

impl Serializer {
    /// The events emitted so far, pending opening not included.
    pub closed spec fn out(&self) -> Seq<EventModel> {
        written(self.writer)
    }

    /// The pending element opening, still accepting attributes.
    pub closed spec fn pending(&self) -> Option<StartTagModel> {
        match self.pend {
            Option::None => Option::None,
            Option::Some(t) => Option::Some(t@),
        }
    }

    /// A fresh serializer that has emitted nothing.
    pub fn new() -> (s: Self)
        ensures
            s.out() == Seq::<EventModel>::empty(),
            s.pending() is None,
    {
        Serializer { writer: writer_new(), pend: None }
    }

    /// Flushes the pending opening, if any, as a start event.
    fn flush_pending(&mut self) -> (r: Result<(), Error>)
        ensures
            r is Ok,
            final(self).out() == old(self).out() + flushed(old(self).pending()),
            final(self).pending() is None,
    {
        let pend = self.pend.take();
        match pend {
            Some(t) => {
                let r = write_start(&mut self.writer, &t);
                proof {
                    assert(self.out() =~= old(self).out() + flushed(old(self).pending()));
                }
                r
            },
            None => {
                proof {
                    assert(self.out() =~= old(self).out() + flushed(old(self).pending()));
                }
                Ok(())
            },
        }
    }

    /// Adds an attribute to the element currently being opened.
    ///
    /// Attributes must all be emitted before any content; the pending
    /// opening still being present says exactly that.
    pub fn serialize_attribute(&mut self, key: &str, value: &str) -> (r: Result<(), Error>)
        requires
            old(self).pending() is Some,
        ensures
            r is Ok,
            final(self).out() == old(self).out(),
            final(self).pending() matches Some(p) && old(self).pending() matches Some(q) && p
                == (StartTagModel {
                tag: q.tag,
                attrs: q.attrs.push(crate::events::AttrModel { key: key@, value: value@ }),
            }),
    {
        let mut t = self.pend.take().unwrap();
        t.attrs.push(crate::events::Attr { key: key.to_owned(), value: value.to_owned() });
        proof {
            assert(t@.attrs =~= old(self).pending()->Some_0.attrs.push(
                crate::events::AttrModel { key: key@, value: value@ },
            ));
        }
        self.pend = Some(t);
        Ok(())
    }

    /// Emits a run of inner text; any pending opening is flushed first.
    pub fn serialize_text(&mut self, text: &str) -> (r: Result<(), Error>)
        ensures
            r is Ok,
            final(self).pending() is None,
            final(self).out() == old(self).out() + flushed(old(self).pending()) + seq![
                EventModel::Text(text@),
            ],
    {
        self.flush_pending()?;
        let r = write_text(&mut self.writer, text);
        proof {
            assert(self.out() =~= old(self).out() + flushed(old(self).pending()) + seq![
                EventModel::Text(text@),
            ]);
        }
        r
    }

    /// Emits one whole element: any pending opening is flushed, the
    /// element's own opening becomes pending, the element serializes
    /// its attributes and content, and the element is closed — as a
    /// self-closing tag when it emitted no content.
    pub fn serialize_element<E: crate::serializer::Element>(&mut self, element: &E) -> (r: Result<
        (),
        Error,
    >)
        ensures
            r is Ok ==> final(self).pending() is None && final(self).out() == old(self).out()
                + flushed(old(self).pending()) + crate::serializer::element_events(element),
            final(self).out().len() >= old(self).out().len(),
            element.spec_serialize_total() ==> r is Ok,
    {
        self.flush_pending()?;
        let tag = element.tag();
        let opening = StartTag::new(element.tag());
        self.pend = Some(opening);
        element.serialize(self)?;
        let pend = self.pend.take();
        match pend {
            Some(t) => {
                let r = write_empty(&mut self.writer, &t);
                proof {
                    if r is Ok {
                        assert(t@.attrs =~= element.spec_attrs());
                        assert(self.out() =~= old(self).out() + flushed(old(self).pending())
                            + crate::serializer::element_events(element));
                    }
                }
                r
            },
            None => {
                let r = write_end(&mut self.writer, tag.as_str());
                proof {
                    if r is Ok {
                        assert(self.out() =~= old(self).out() + flushed(old(self).pending())
                            + crate::serializer::element_events(element));
                    }
                }
                r
            },
        }
    }

    /// Serializes a full document: the XML declaration, then the root
    /// element.
    pub fn serialize_document<E: crate::serializer::Element>(&mut self, element: &E) -> (r: Result<
        (),
        Error,
    >)
        requires
            old(self).pending() is None,
        ensures
            r is Ok ==> final(self).pending() is None && final(self).out() == old(self).out()
                + seq![EventModel::Decl] + crate::serializer::element_events(element),
            final(self).out().len() >= old(self).out().len(),
            element.spec_serialize_total() ==> r is Ok,
    {
        let r = write_decl(&mut self.writer);
        if r.is_err() {
            return r;
        }
        let r = self.serialize_element(element);
        proof {
            if r is Ok {
                assert(self.out() =~= old(self).out() + seq![EventModel::Decl]
                    + crate::serializer::element_events(element));
            }
        }
        r
    }

    /// Hands back the document text written so far: the engine's
    /// rendering of the emitted events.
    pub fn into_output(self) -> (s: String)
        ensures
            s@ == rendering(self.out()),
    {
        writer_take(self.writer)
    }
}

impl crate::serializer::Serializer for Serializer {
    open spec fn emitted(&self) -> Seq<EventModel> {
        self.out()
    }

    open spec fn opening(&self) -> Option<StartTagModel> {
        self.pending()
    }

    fn serialize_attribute(&mut self, key: &str, value: &str) -> (r: Result<(), Error>) {
        Serializer::serialize_attribute(self, key, value)
    }

    fn serialize_text(&mut self, text: &str) -> (r: Result<(), Error>) {
        Serializer::serialize_text(self, text)
    }

    fn serialize_element<E: crate::serializer::Element>(&mut self, element: &E) -> (r: Result<
        (),
        Error,
    >) {
        Serializer::serialize_element(self, element)
    }
}

/// Serializes `element` into a full document in memory: the XML
/// declaration followed by the element, unformatted, empty elements
/// self-closing.  On success the text is the engine's rendering of
/// exactly the declaration followed by the element's events; failure
/// can only come from the element's own `serialize`.
pub fn serialize_document<E: crate::serializer::Element>(element: &E) -> (r: Result<String, Error>)
    ensures
        (r matches Ok(s) ==> s@ == rendering(
            seq![EventModel::Decl] + crate::serializer::element_events(element),
        )),
        element.spec_serialize_total() ==> r is Ok,
{
    let mut s = Serializer::new();
    let run = s.serialize_document(element);
    if run.is_err() {
        return Err(run.unwrap_err());
    }
    proof {
        assert(s.out() =~= seq![EventModel::Decl] + crate::serializer::element_events(element));
    }
    Ok(s.into_output())
}

} // verus!
