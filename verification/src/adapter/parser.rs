//! The pull side of the engine boundary: a [`Parser`] wraps a
//! `quick_xml::Reader` and hands decoded [`Event`]s to the verified
//! parse machinery.
//!
//! The reader is modelled by the sequence of events it has still to
//! yield ([`remaining`]); a fresh reader over a text yields exactly
//! [`events_of`] that text.  Both are names for what the engine
//! computes; the wrappers state how each call moves along that
//! sequence.

use vstd::prelude::*;

use quick_xml::events::Event as QEvent;

verus! {

use crate::errors::Error;
use crate::events::{
    close_len, consumed_subtree, lemma_close_len_bounds, lemma_close_len_chain, Attr, Event,
    EventModel, StartTag,
};
use crate::parser::ignore::mid_subtree;
use crate::parser::ElementParser;

#[verifier::external_type_specification]
#[verifier::external_body]
#[verifier::reject_recursive_types(R)]
pub struct ExReader<R>(quick_xml::Reader<R>);

#[verifier::external_type_specification]
#[verifier::external_body]
pub struct ExBytesStart<'a>(quick_xml::events::BytesStart<'a>);

#[verifier::external_type_specification]
#[verifier::external_body]
pub struct ExBytesText<'a>(quick_xml::events::BytesText<'a>);

#[verifier::external_type_specification]
#[verifier::external_body]
pub struct ExEvent<'a>(QEvent<'a>);

/// The events that tokenizing a whole text yields, in document order,
/// without a terminating end-of-input marker.  The tokenization of a
/// text depends on its characters alone.
pub uninterp spec fn events_of(text: Seq<char>) -> Seq<EventModel>;

/// The events a reader has still to yield, in order: the decoded
/// events that successive reads from this state will successfully
/// deliver before the first failure or the end of input, without a
/// terminating end-of-input marker.  Within that prefix a read cannot
/// fail; past it, a read yields end-of-input or fails — and after a
/// failure nothing is said about the states that follow, since a
/// decoding failure leaves the engine mid-document.
pub uninterp spec fn remaining(r: quick_xml::Reader<&[u8]>) -> Seq<EventModel>;

/// Relies on `quick_xml::Reader::from_str`: a fresh reader over `text`
/// yields the events of `text`.
#[verifier::external_body]
fn reader_from_str<'i>(text: &'i str) -> (r: quick_xml::Reader<&'i [u8]>)
    ensures
        remaining(r) == events_of(text@),
{
    quick_xml::Reader::from_str(text)
}

/// Converts a start or empty tag: decoded tag name, then each attribute
/// key and unescaped value, in document order.  Called only from
/// [`reader_next`]; relies on `BytesStart::name`, `BytesStart::attributes`
/// and `Attribute::unescape_value`.
#[verifier::external_body]
fn conv_start(s: quick_xml::events::BytesStart<'_>) -> (r: Result<StartTag, Error>) {
    let tag = String::from_utf8_lossy(s.name().as_ref()).into_owned();
    let mut attrs = Vec::new();
    for a in s.attributes() {
        let a = a.map_err(|e| Error::Xml { msg: e.to_string() })?;
        let key = String::from_utf8_lossy(a.key.as_ref()).into_owned();
        let value = a.unescape_value().map_err(|e| Error::Xml { msg: e.to_string() })?;
        attrs.push(Attr { key, value: value.into_owned() });
    }
    Ok(StartTag { tag, attrs })
}

/// Converts a text run: unescapes character references.  Called only
/// from [`reader_next`]; relies on `BytesText::unescape`.
#[verifier::external_body]
fn conv_text(t: quick_xml::events::BytesText<'_>) -> (r: Result<Event, Error>) {
    match t.unescape() {
        Ok(s) => Ok(Event::Text(s.into_owned())),
        Err(e) => Err(Error::Xml { msg: e.to_string() }),
    }
}

/// Converts one engine event into its decoded form.  Called only from
/// [`reader_next`]; relies on `BytesEnd::name` for closing tags and
/// `BytesCData::into_inner` for raw character data.
#[verifier::external_body]
fn conv_event(qe: QEvent<'_>) -> (e: Result<Event, Error>) {
    match qe {
        QEvent::Start(s) => conv_start(s).map(Event::Start),
        QEvent::Empty(s) => conv_start(s).map(Event::Empty),
        QEvent::End(e) => Ok(Event::End(String::from_utf8_lossy(e.name().as_ref()).into_owned())),
        QEvent::Text(t) => conv_text(t),
        QEvent::CData(t) => Ok(Event::Text(String::from_utf8_lossy(&t.into_inner()).into_owned())),
        QEvent::Decl(_) => Ok(Event::Decl),
        QEvent::DocType(_) => Ok(Event::DocType),
        QEvent::PI(_) => Ok(Event::Pi),
        QEvent::Comment(_) => Ok(Event::Comment),
        QEvent::Eof => Ok(Event::Eof),
    }
}

/// Relies on `quick_xml::Reader::read_event`: yields the reader's next
/// event, decoded; at the end of input it keeps yielding end-of-input.
#[verifier::external_body]
fn reader_next<'i>(r: &mut quick_xml::Reader<&'i [u8]>) -> (e: Result<Event, Error>)
    ensures
        (match e {
            Ok(ev) => {
                if remaining(*old(r)).len() > 0 {
                    ev@ == remaining(*old(r))[0] && remaining(*final(r)) == remaining(
                        *old(r),
                    ).drop_first()
                } else {
                    ev@ == EventModel::Eof && remaining(*final(r)) == remaining(*old(r))
                }
            },
            Err(err) => err is Xml,
        }),
        remaining(*old(r)).len() > 0 ==> e is Ok,
{
    match r.read_event() {
        Ok(qe) => conv_event(qe),
        Err(err) => Err(Error::Xml { msg: err.to_string() }),
    }
}

/// An event the document level skips silently: comments and
/// whitespace-only text anywhere, and — before the root element — the
/// declaration and doctype.
pub open spec fn doc_skippable(e: EventModel) -> bool {
    match e {
        EventModel::Decl => true,
        EventModel::DocType => true,
        EventModel::Comment => true,
        EventModel::Text(t) => crate::text::is_blank(t),
        _ => false,
    }
}

/// The number of leading events the document level skips before it
/// meets the root element (or whatever else stands in its place).
pub open spec fn doc_prefix_len(evs: Seq<EventModel>) -> int
    decreases evs.len(),
{
    if evs.len() == 0 || !doc_skippable(evs[0]) {
        0
    } else {
        1 + doc_prefix_len(evs.drop_first())
    }
}

/// Everything before the document prefix's end is skippable; what
/// stands at its end, if anything, is not.
proof fn lemma_doc_prefix(evs: Seq<EventModel>)
    ensures
        0 <= doc_prefix_len(evs) <= evs.len(),
        forall|j: int| 0 <= j < doc_prefix_len(evs) ==> doc_skippable(#[trigger] evs[j]),
        doc_prefix_len(evs) < evs.len() ==> !doc_skippable(evs[doc_prefix_len(evs)]),
    decreases evs.len(),
{
    if evs.len() > 0 && doc_skippable(evs[0]) {
        lemma_doc_prefix(evs.drop_first());
        assert forall|j: int| 0 <= j < doc_prefix_len(evs) implies doc_skippable(
            #[trigger] evs[j],
        ) by {
            if j > 0 {
                assert(evs.drop_first()[j - 1] == evs[j]);
            }
        }
        if doc_prefix_len(evs) < evs.len() {
            assert(evs.drop_first()[doc_prefix_len(evs) - 1] == evs[doc_prefix_len(evs)]);
        }
    }
}

/// An event the document level skips after the root element: comments
/// and whitespace-only text (a declaration or doctype is an error
/// there).
pub open spec fn tail_skippable(e: EventModel) -> bool {
    match e {
        EventModel::Comment => true,
        EventModel::Text(t) => crate::text::is_blank(t),
        _ => false,
    }
}

/// The number of events the document level skips after the root
/// element before it meets anything substantial.
pub open spec fn tail_prefix_len(evs: Seq<EventModel>) -> int
    decreases evs.len(),
{
    if evs.len() == 0 || !tail_skippable(evs[0]) {
        0
    } else {
        1 + tail_prefix_len(evs.drop_first())
    }
}

/// Everything before the tail prefix's end is skippable; what stands
/// at its end, if anything, is not.
proof fn lemma_tail_prefix(evs: Seq<EventModel>)
    ensures
        0 <= tail_prefix_len(evs) <= evs.len(),
        forall|j: int| 0 <= j < tail_prefix_len(evs) ==> tail_skippable(#[trigger] evs[j]),
        tail_prefix_len(evs) < evs.len() ==> !tail_skippable(evs[tail_prefix_len(evs)]),
    decreases evs.len(),
{
    if evs.len() > 0 && tail_skippable(evs[0]) {
        lemma_tail_prefix(evs.drop_first());
        assert forall|j: int| 0 <= j < tail_prefix_len(evs) implies tail_skippable(
            #[trigger] evs[j],
        ) by {
            if j > 0 {
                assert(evs.drop_first()[j - 1] == evs[j]);
            }
        }
        if tail_prefix_len(evs) < evs.len() {
            assert(evs.drop_first()[tail_prefix_len(evs) - 1] == evs[tail_prefix_len(evs)]);
        }
    }
}

/// A substantial event after the root stands exactly at the end of
/// the trailing skippable run.
proof fn lemma_tail_boundary(evs: Seq<EventModel>, p: int, i: int)
    requires
        0 <= p <= i,
        i < evs.len(),
        i <= p + tail_prefix_len(evs.skip(p)),
        !tail_skippable(evs[i]),
    ensures
        i == p + tail_prefix_len(evs.skip(p)),
{
    lemma_tail_prefix(evs.skip(p));
    if i < p + tail_prefix_len(evs.skip(p)) {
        assert(evs.skip(p)[i - p] == evs[i]);
    }
}

/// The position just after the root element's whole subtree, when the
/// events contain it: past a self-closing root itself, or past the
/// matching closing tag of an open root.
pub open spec fn after_root(evs: Seq<EventModel>, k: int) -> Option<int> {
    match evs[k] {
        EventModel::Empty(_) => Option::Some(k + 1),
        EventModel::Start(_) => match close_len(evs.skip(k + 1), 0) {
            Option::Some(n) => Option::Some(k + 1 + n),
            Option::None => Option::None,
        },
        _ => Option::None,
    }
}

/// Whether an event opens a root element that the state `S` accepts.
pub open spec fn root_opens<S: crate::parser::ElementState>(e: EventModel) -> bool {
    match e {
        EventModel::Start(s) => S::spec_accepts(s.tag),
        EventModel::Empty(s) => S::spec_accepts(s.tag),
        _ => false,
    }
}

/// Parser adaptor for `quick_xml::Reader`: pulls decoded events from
/// the input text it was created over.
pub struct Parser<'i> {
    reader: quick_xml::Reader<&'i [u8]>,
}

impl<'i> Parser<'i> {
    /// The events this parser has still to deliver.
    pub closed spec fn events(&self) -> Seq<EventModel> {
        remaining(self.reader)
    }

    /// A parser over the whole of `text`.
    pub fn new(text: &'i str) -> (p: Self)
        ensures
            p.events() == events_of(text@),
    {
        Parser { reader: reader_from_str(text) }
    }

    /// Pulls the next event, consuming it.
    pub(crate) fn next_event(&mut self) -> (e: Result<Event, Error>)
        ensures
            (match e {
                Ok(ev) => {
                    if old(self).events().len() > 0 {
                        ev@ == old(self).events()[0] && final(self).events() == old(self).events().drop_first()
                    } else {
                        ev@ == EventModel::Eof && final(self).events() == old(self).events()
                    }
                },
                Err(err) => err is Xml,
            }),
            old(self).events().len() > 0 ==> e is Ok,
            e is Ok ==> final(self).events().len() <= old(self).events().len(),
    {
        reader_next(&mut self.reader)
    }

    /// Parse a single root element from a whole document, using the
    /// default state type of the target.
    ///
    /// Enforces the document-level rules: exactly one root element, a
    /// declaration or doctype only before it, no processing
    /// instructions, no non-whitespace text outside the root.  The
    /// contract mirrors [`Self::parse_document_for_state`].
    pub fn parse_document<E: crate::parser::Element>(&mut self) -> (r: Result<E, Error>)
        ensures
            r is Ok ==> final(self).events().len() <= old(self).events().len(),
            ({
                let evs = old(self).events();
                let k = doc_prefix_len(evs);
                &&& (r is Ok ==> k < evs.len() && root_opens::<E::ParseState>(evs[k]) && (
                match after_root(evs, k) {
                    Option::Some(p) => ({
                        let k2 = p + tail_prefix_len(evs.skip(p));
                        k2 == evs.len() || evs[k2] is Eof
                    }),
                    Option::None => false,
                }))
                &&& (k == evs.len() ==> (r matches Err(err) && (err matches Error::UnexpectedEof {
                    msg,
                } && msg@ == "empty document"@ || err is Xml)))
                &&& (k < evs.len() ==> (match evs[k] {
                    EventModel::End(_) => r matches Err(err) && err is UnexpectedEnd,
                    EventModel::Pi => r matches Err(err) && err is UnexpectedPi,
                    EventModel::Text(_) => r matches Err(err) && err is UnexpectedText,
                    EventModel::Eof => r is Err,
                    EventModel::Start(s) => !<E::ParseState as crate::parser::ElementState>::spec_accepts(s.tag) ==> (
                    r matches Err(err) && err matches Error::UnexpectedElement { tag: t } && t@
                        == s.tag),
                    EventModel::Empty(s) => !<E::ParseState as crate::parser::ElementState>::spec_accepts(s.tag) ==> (
                    r matches Err(err) && err matches Error::UnexpectedElement { tag: t } && t@
                        == s.tag),
                    _ => true,
                }))
                &&& (({
                    &&& k < evs.len()
                    &&& (match evs[k] {
                        EventModel::Empty(s) => <E::ParseState as crate::parser::ElementState>::spec_accepts(s.tag) && (s.attrs.len() == 0
                            || <E::ParseState as crate::parser::ElementState>::spec_attrs_total()),
                        _ => false,
                    })
                    &&& <E::ParseState as crate::parser::ElementState>::spec_finish_total()
                    &&& ({
                        let k2 = k + 1 + tail_prefix_len(evs.skip(k + 1));
                        k2 == evs.len() || evs[k2] is Eof
                    })
                }) ==> (r is Ok || (r matches Err(err) && err is Xml)))
                &&& (({
                    &&& k < evs.len()
                    &&& (match evs[k] {
                        EventModel::Empty(s) => <E::ParseState as crate::parser::ElementState>::spec_accepts(s.tag) && (s.attrs.len() == 0
                            || <E::ParseState as crate::parser::ElementState>::spec_attrs_total()),
                        _ => false,
                    })
                    &&& <E::ParseState as crate::parser::ElementState>::spec_finish_total()
                }) ==> ({
                    let k2 = k + 1 + tail_prefix_len(evs.skip(k + 1));
                    k2 < evs.len() ==> (match evs[k2] {
                        EventModel::Decl => r matches Err(err) && err is UnexpectedDecl,
                        EventModel::DocType => r matches Err(err) && err is UnexpectedDocType,
                        EventModel::Pi => r matches Err(err) && err is UnexpectedPi,
                        EventModel::Text(_) => r matches Err(err) && err is UnexpectedText,
                        EventModel::End(_) => r matches Err(err) && err is UnexpectedEnd,
                        EventModel::Start(s2) => (r matches Err(err)
                            && err matches Error::UnexpectedElement { tag: t } && t@ == s2.tag),
                        EventModel::Empty(s2) => (r matches Err(err)
                            && err matches Error::UnexpectedElement { tag: t } && t@ == s2.tag),
                        EventModel::Eof => r is Ok || (r matches Err(err) && err is Xml),
                        _ => true,
                    })
                }))
            }),
    {
        self.parse_document_for_state::<E::ParseState>()
    }

    /// Parse a single root element from a whole document with the
    /// given state type: create the state, drive it through the
    /// element, finish it.
    ///
    /// The document's leading declaration, doctype, comments and
    /// whitespace are skipped; the contract then says what happens at
    /// the first substantial event: success requires it to be the
    /// opening of a root element the state accepts — with nothing but
    /// trailing comments and whitespace after the root's whole subtree
    /// — an end tag, processing instruction or non-whitespace text
    /// there is the respective error, an unaccepted root tag is an
    /// "unexpected element" naming it, and a document with nothing
    /// substantial at all reports an unexpected end of input (or what
    /// the engine itself reported).
    ///
    /// For a self-closing root whose state accepts every attribute it
    /// carries and whose finish cannot fail, the contract goes
    /// further: with a clean trailer the parse succeeds (or reports an
    /// engine failure past the modelled events), and with a substantial
    /// event after the root it names the exact error — a second root
    /// element among them.  An open root's success additionally
    /// depends on how the state's own callbacks handle each child,
    /// which is user code this generic contract cannot see.
    pub fn parse_document_for_state<S: crate::parser::ElementState>(&mut self) -> (r: Result<
        S::Output,
        Error,
    >)
        ensures
            r is Ok ==> final(self).events().len() <= old(self).events().len(),
            ({
                let evs = old(self).events();
                let k = doc_prefix_len(evs);
                &&& (r is Ok ==> k < evs.len() && root_opens::<S>(evs[k]) && (match after_root(
                    evs,
                    k,
                ) {
                    Option::Some(p) => ({
                        let k2 = p + tail_prefix_len(evs.skip(p));
                        k2 == evs.len() || evs[k2] is Eof
                    }),
                    Option::None => false,
                }))
                &&& (k == evs.len() ==> (r matches Err(err) && (err matches Error::UnexpectedEof {
                    msg,
                } && msg@ == "empty document"@ || err is Xml)))
                &&& (k < evs.len() ==> (match evs[k] {
                    EventModel::End(_) => r matches Err(err) && err is UnexpectedEnd,
                    EventModel::Pi => r matches Err(err) && err is UnexpectedPi,
                    EventModel::Text(_) => r matches Err(err) && err is UnexpectedText,
                    EventModel::Eof => r is Err,
                    EventModel::Start(s) => !S::spec_accepts(s.tag) ==> (r matches Err(err)
                        && err matches Error::UnexpectedElement { tag: t } && t@ == s.tag),
                    EventModel::Empty(s) => !S::spec_accepts(s.tag) ==> (r matches Err(err)
                        && err matches Error::UnexpectedElement { tag: t } && t@ == s.tag),
                    _ => true,
                }))
                &&& (({
                    &&& k < evs.len()
                    &&& (match evs[k] {
                        EventModel::Empty(s) => S::spec_accepts(s.tag) && (s.attrs.len() == 0
                            || S::spec_attrs_total()),
                        _ => false,
                    })
                    &&& S::spec_finish_total()
                    &&& ({
                        let k2 = k + 1 + tail_prefix_len(evs.skip(k + 1));
                        k2 == evs.len() || evs[k2] is Eof
                    })
                }) ==> (r is Ok || (r matches Err(err) && err is Xml)))
                &&& (({
                    &&& k < evs.len()
                    &&& (match evs[k] {
                        EventModel::Empty(s) => S::spec_accepts(s.tag) && (s.attrs.len() == 0
                            || S::spec_attrs_total()),
                        _ => false,
                    })
                    &&& S::spec_finish_total()
                }) ==> ({
                    let k2 = k + 1 + tail_prefix_len(evs.skip(k + 1));
                    k2 < evs.len() ==> (match evs[k2] {
                        EventModel::Decl => r matches Err(err) && err is UnexpectedDecl,
                        EventModel::DocType => r matches Err(err) && err is UnexpectedDocType,
                        EventModel::Pi => r matches Err(err) && err is UnexpectedPi,
                        EventModel::Text(_) => r matches Err(err) && err is UnexpectedText,
                        EventModel::End(_) => r matches Err(err) && err is UnexpectedEnd,
                        EventModel::Start(s2) => (r matches Err(err)
                            && err matches Error::UnexpectedElement { tag: t } && t@ == s2.tag),
                        EventModel::Empty(s2) => (r matches Err(err)
                            && err matches Error::UnexpectedElement { tag: t } && t@ == s2.tag),
                        EventModel::Eof => r is Ok || (r matches Err(err) && err is Xml),
                        _ => true,
                    })
                }))
            }),
    {
        proof {
            lemma_doc_prefix(old(self).events());
            assert(old(self).events().skip(0) =~= old(self).events());
        }
        let ghost mut i: int = 0;
        let mut output: Option<S::Output> = None;
        loop
            invariant
                self.events().len() <= old(self).events().len(),
                ({
                    let evs = old(self).events();
                    let k = doc_prefix_len(evs);
                    &&& (output is None ==> 0 <= i <= k && self.events() == evs.skip(i))
                    &&& (output is Some ==> ({
                        let p = after_root(evs, k)->0;
                        &&& k < evs.len() && root_opens::<S>(evs[k])
                        &&& after_root(evs, k) is Some
                        &&& 0 <= p
                        &&& p <= i <= p + tail_prefix_len(evs.skip(p))
                        &&& p + tail_prefix_len(evs.skip(p)) <= evs.len()
                        &&& self.events() == evs.skip(i)
                    }))
                }),
            decreases self.events().len(),
        {
            let ghost evs = old(self).events();
            let ghost k = doc_prefix_len(evs);
            let ghost cur = self.events();
            proof {
                lemma_doc_prefix(evs);
            }
            match self.next_event()? {
                Event::Eof => {
                    proof {
                        if output is None && cur.len() > 0 {
                            assert(cur[0] == evs[i]);
                            assert(!doc_skippable(evs[i]));
                            assert(i == k);
                        }
                        if output is Some {
                            let p = after_root(evs, k)->0;
                            lemma_tail_prefix(evs.skip(p));
                            if cur.len() > 0 {
                                assert(cur[0] == evs[i]);
                                assert(evs[i] is Eof);
                                assert(evs.skip(p)[i - p] == evs[i]);
                                assert(i == p + tail_prefix_len(evs.skip(p)));
                            } else {
                                assert(i == evs.len());
                            }
                        }
                    }
                    return (match output {
                        Some(o) => Ok(o),
                        None => Err(crate::errors::unexpected_eof("empty document")),
                    });
                },
                Event::End(_) => {
                    proof {
                        assert(cur[0] == evs[i]);
                        if output is None {
                            assert(!doc_skippable(evs[i]));
                            assert(i == k);
                        } else {
                            let p = after_root(evs, k)->0;
                            lemma_tail_boundary(evs, p, i);
                        }
                    }
                    return Err(crate::errors::unexpected_end());
                },
                Event::Start(s) => {
                    if output.is_some() {
                        proof {
                            assert(cur[0] == evs[i]);
                            let p = after_root(evs, k)->0;
                            lemma_tail_boundary(evs, p, i);
                        }
                        return Err(crate::errors::unexpected_element(s.tag.as_str()));
                    }
                    proof {
                        assert(cur[0] == evs[i]);
                        assert(evs[i] == EventModel::Start(s@));
                        assert(!doc_skippable(evs[i]));
                        assert(i == k);
                        assert(cur.drop_first() =~= evs.skip(k + 1));
                    }
                    let mut state = match S::parse_element_start(s.tag.as_str()) {
                        Some(st) => st,
                        None => {
                            return Err(crate::errors::unexpected_element(s.tag.as_str()));
                        },
                    };
                    let ghost before = self.events();
                    self.parse_element_state(&s, false, &mut state)?;
                    let o = state.parse_element_finish()?;
                    proof {
                        let n = close_len(before, 0)->0;
                        lemma_close_len_bounds(before, 0);
                        assert(self.events() == before.skip(n));
                        assert(after_root(evs, k) == Option::Some(k + 1 + n));
                        assert(before.skip(n) =~= evs.skip(k + 1 + n));
                        lemma_tail_prefix(evs.skip(k + 1 + n));
                        i = k + 1 + n;
                    }
                    output = Some(o);
                },
                Event::Empty(s) => {
                    if output.is_some() {
                        proof {
                            assert(cur[0] == evs[i]);
                            let p = after_root(evs, k)->0;
                            lemma_tail_boundary(evs, p, i);
                        }
                        return Err(crate::errors::unexpected_element(s.tag.as_str()));
                    }
                    proof {
                        assert(cur[0] == evs[i]);
                        assert(evs[i] == EventModel::Empty(s@));
                        assert(!doc_skippable(evs[i]));
                        assert(i == k);
                        assert(cur.drop_first() =~= evs.skip(k + 1));
                    }
                    let mut state = match S::parse_element_start(s.tag.as_str()) {
                        Some(st) => st,
                        None => {
                            return Err(crate::errors::unexpected_element(s.tag.as_str()));
                        },
                    };
                    self.parse_element_state(&s, true, &mut state)?;
                    let o = state.parse_element_finish()?;
                    proof {
                        assert(after_root(evs, k) == Option::Some(k + 1));
                        lemma_tail_prefix(evs.skip(k + 1));
                        i = k + 1;
                    }
                    output = Some(o);
                },
                Event::Text(t) => {
                    let blank = crate::text::is_all_whitespace(t.as_str());
                    proof {
                        if output is None {
                            assert(cur[0] == evs[i]);
                            assert(evs[i] == EventModel::Text(t@));
                            if blank {
                                assert(doc_skippable(evs[i]));
                                assert(i < k);
                                assert(cur.drop_first() =~= evs.skip(i + 1));
                                i = i + 1;
                            } else {
                                assert(i == k);
                            }
                        } else if blank {
                            let p = after_root(evs, k)->0;
                            lemma_tail_prefix(evs.skip(p));
                            assert(cur[0] == evs[i]);
                            assert(evs[i] == EventModel::Text(t@));
                            assert(tail_skippable(evs[i]));
                            assert(evs.skip(p)[i - p] == evs[i]);
                            assert(i < p + tail_prefix_len(evs.skip(p)));
                            assert(cur.drop_first() =~= evs.skip(i + 1));
                            i = i + 1;
                        } else {
                            let p = after_root(evs, k)->0;
                            assert(cur[0] == evs[i]);
                            assert(evs[i] == EventModel::Text(t@));
                            lemma_tail_boundary(evs, p, i);
                        }
                    }
                    if !blank {
                        return Err(crate::errors::unexpected_text());
                    }
                },
                Event::Decl => {
                    if output.is_some() {
                        proof {
                            assert(cur[0] == evs[i]);
                            let p = after_root(evs, k)->0;
                            lemma_tail_boundary(evs, p, i);
                        }
                        return Err(crate::errors::unexpected_decl());
                    }
                    proof {
                        assert(cur[0] == evs[i]);
                        assert(doc_skippable(evs[i]));
                        assert(i < k);
                        assert(cur.drop_first() =~= evs.skip(i + 1));
                        i = i + 1;
                    }
                },
                Event::DocType => {
                    if output.is_some() {
                        proof {
                            assert(cur[0] == evs[i]);
                            let p = after_root(evs, k)->0;
                            lemma_tail_boundary(evs, p, i);
                        }
                        return Err(crate::errors::unexpected_doctype());
                    }
                    proof {
                        assert(cur[0] == evs[i]);
                        assert(doc_skippable(evs[i]));
                        assert(i < k);
                        assert(cur.drop_first() =~= evs.skip(i + 1));
                        i = i + 1;
                    }
                },
                Event::Comment => {
                    proof {
                        assert(cur[0] == evs[i]);
                        assert(cur.drop_first() =~= evs.skip(i + 1));
                        if output is None {
                            assert(doc_skippable(evs[i]));
                            assert(i < k);
                        } else {
                            let p = after_root(evs, k)->0;
                            lemma_tail_prefix(evs.skip(p));
                            assert(tail_skippable(evs[i]));
                            assert(evs.skip(p)[i - p] == evs[i]);
                            assert(i < p + tail_prefix_len(evs.skip(p)));
                        }
                        i = i + 1;
                    }
                },
                Event::Pi => {
                    proof {
                        assert(cur[0] == evs[i]);
                        if output is None {
                            assert(!doc_skippable(evs[i]));
                            assert(i == k);
                        } else {
                            let p = after_root(evs, k)->0;
                            lemma_tail_boundary(evs, p, i);
                        }
                    }
                    return Err(crate::errors::unexpected_pi());
                },
            }
        }
    }
}

impl<'i> crate::parser::ElementParser for Parser<'i> {
    open spec fn source_len(&self) -> nat {
        self.events().len()
    }

    /// Feeds `state` the attributes of `start`, then every inner event
    /// up to the element's closing tag, in document order; on success
    /// exactly the element's subtree was consumed.
    fn parse_element_state<E: crate::parser::ElementState>(
        &mut self,
        start: &StartTag,
        closed: bool,
        state: &mut E,
    ) -> (r: Result<(), Error>)
        ensures
            r is Ok ==> consumed_subtree(old(self).events(), final(self).events(), closed),
            closed && (start@.attrs.len() == 0 || E::spec_attrs_total()) ==> r is Ok,
    {
        let n = start.attrs.len();
        let mut i: usize = 0;
        while i < n
            invariant
                i <= n,
                n == start.attrs@.len(),
                self.events() == old(self).events(),
            decreases n - i,
        {
            let a = &start.attrs[i];
            state.parse_element_attribute(a.key.as_str(), a.value.as_str())?;
            i += 1;
        }
        if closed {
            return Ok(());
        }
        proof {
            assert(old(self).events().skip(0) =~= old(self).events());
        }
        loop
            invariant
                !closed,
                self.events().len() <= old(self).events().len(),
                mid_subtree(old(self).events(), self.events()),
            decreases self.events().len(),
        {
            let ghost evs0 = old(self).events();
            let ghost cur = self.events();
            match self.next_event()? {
                Event::Eof => {
                    return Err(crate::errors::unexpected_eof("unclosed element"));
                },
                Event::End(_) => {
                    proof {
                        assert(cur.len() > 0 && cur[0] is End);
                        assert(close_len(cur, 0) == Option::<int>::Some(1));
                        assert(self.events() == cur.drop_first());
                        assert(cur.drop_first() =~= evs0.skip(evs0.len() - cur.len() + 1));
                    }
                    return Ok(());
                },
                Event::Start(s) => {
                    proof {
                        assert(cur.len() > 0 && cur[0] is Start);
                        assert(self.events() == cur.drop_first());
                        assert(cur.drop_first() =~= evs0.skip(evs0.len() - cur.len() + 1));
                    }
                    let ghost cur1 = self.events();
                    state.parse_element_inner_node(s, false, self)?;
                    proof {
                        let k = close_len(cur1, 0)->0;
                        let cur2 = self.events();
                        assert(cur2 == cur1.skip(k));
                        lemma_close_len_bounds(cur1, 0);
                        lemma_close_len_chain(cur1, 0);
                        assert(close_len(cur, 0) == (match close_len(cur1, 1) {
                            Option::Some(m) => Option::Some(1 + m),
                            Option::None => Option::<int>::None,
                        }));
                        assert(cur1.skip(k) =~= evs0.skip(evs0.len() - cur.len() + 1 + k));
                    }
                },
                Event::Empty(s) => {
                    proof {
                        assert(cur.len() > 0);
                        assert(!(cur[0] is Start) && !(cur[0] is End));
                        assert(self.events() == cur.drop_first());
                        assert(cur.drop_first() =~= evs0.skip(evs0.len() - cur.len() + 1));
                    }
                    state.parse_element_inner_node(s, true, self)?;
                },
                Event::Text(t) => {
                    proof {
                        assert(cur.len() > 0);
                        assert(!(cur[0] is Start) && !(cur[0] is End));
                        assert(self.events() == cur.drop_first());
                        assert(cur.drop_first() =~= evs0.skip(evs0.len() - cur.len() + 1));
                    }
                    state.parse_element_inner_text(t)?;
                },
                Event::Comment => {
                    proof {
                        assert(cur.len() > 0);
                        assert(!(cur[0] is Start) && !(cur[0] is End));
                        assert(self.events() == cur.drop_first());
                        assert(cur.drop_first() =~= evs0.skip(evs0.len() - cur.len() + 1));
                    }
                },
                Event::Decl => {
                    return Err(crate::errors::unexpected_decl());
                },
                Event::DocType => {
                    return Err(crate::errors::unexpected_doctype());
                },
                Event::Pi => {
                    return Err(crate::errors::unexpected_pi());
                },
            }
        }
    }
}

} // verus!
