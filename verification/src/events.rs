//! The decoded XML events that parsing consumes and serializing emits.
//!
//! The streaming engine hands the library fully decoded events: tag
//! names and attribute values are already unescaped text.  Each event
//! type has a spec-level model over character sequences, so contracts
//! can speak about streams of events mathematically.

use vstd::prelude::*;

verus! {

/// One attribute of an element: key and decoded value.
#[derive(Debug, Clone)]
pub struct Attr {
    pub key: String,
    pub value: String,
}

/// Spec-level model of an attribute.
pub struct AttrModel {
    pub key: Seq<char>,
    pub value: Seq<char>,
}

impl View for Attr {
    type V = AttrModel;

    open spec fn view(&self) -> AttrModel {
        AttrModel { key: self.key@, value: self.value@ }
    }
}

/// The opening of an element: its tag and its attributes in document
/// order.
#[derive(Debug, Clone)]
pub struct StartTag {
    pub tag: String,
    pub attrs: Vec<Attr>,
}

/// Spec-level model of an element opening.
pub struct StartTagModel {
    pub tag: Seq<char>,
    pub attrs: Seq<AttrModel>,
}

impl View for StartTag {
    type V = StartTagModel;

    open spec fn view(&self) -> StartTagModel {
        StartTagModel { tag: self.tag@, attrs: self.attrs@.map_values(|a: Attr| a@) }
    }
}

impl StartTag {
    /// A fresh opening with the given tag and no attributes yet.
    pub fn new(tag: String) -> (t: Self)
        ensures
            t@.tag == tag@,
            t@.attrs == Seq::<AttrModel>::empty(),
    {
        let t = StartTag { tag, attrs: Vec::new() };
        proof {
            assert(t@.attrs =~= Seq::<AttrModel>::empty());
        }
        t
    }
}

/// One decoded XML event.
#[derive(Debug, Clone)]
pub enum Event {
    /// Opening tag of an element that has separate content and end tag.
    Start(StartTag),
    /// A self-closing element.
    Empty(StartTag),
    /// Closing tag; carries the tag name as written.
    End(String),
    /// A run of character data or CDATA, decoded.
    Text(String),
    /// The document declaration `<?xml ...?>`.
    Decl,
    /// A `<!DOCTYPE ...>` clause.
    DocType,
    /// A processing instruction.
    Pi,
    /// A comment.
    Comment,
    /// End of input.
    Eof,
}

/// Spec-level model of an event.
pub enum EventModel {
    Start(StartTagModel),
    Empty(StartTagModel),
    End(Seq<char>),
    Text(Seq<char>),
    Decl,
    DocType,
    Pi,
    Comment,
    Eof,
}

/// How many events, counted from the front of `evs`, remain inside an
/// open element before it is fully closed: the scan passes `depth`
/// additional unmatched closing tags and ends just after the one that
/// closes the outermost still-open element.  `None` when the events
/// run out first.
pub open spec fn close_len(evs: Seq<EventModel>, depth: nat) -> Option<int>
    decreases evs.len(),
{
    if evs.len() == 0 {
        Option::None
    } else {
        match evs[0] {
            EventModel::End(_) => if depth == 0 {
                Option::Some(1)
            } else {
                match close_len(evs.drop_first(), (depth - 1) as nat) {
                    Option::Some(n) => Option::Some(1 + n),
                    Option::None => Option::None,
                }
            },
            EventModel::Start(_) => match close_len(evs.drop_first(), depth + 1) {
                Option::Some(n) => Option::Some(1 + n),
                Option::None => Option::None,
            },
            _ => match close_len(evs.drop_first(), depth) {
                Option::Some(n) => Option::Some(1 + n),
                Option::None => Option::None,
            },
        }
    }
}

/// The distance to the closing tag is positive and within the events.
pub proof fn lemma_close_len_bounds(evs: Seq<EventModel>, depth: nat)
    ensures
        close_len(evs, depth) matches Some(n) ==> 1 <= n <= evs.len(),
    decreases evs.len(),
{
    if evs.len() > 0 {
        match evs[0] {
            EventModel::End(_) => {
                if depth > 0 {
                    lemma_close_len_bounds(evs.drop_first(), (depth - 1) as nat);
                }
            },
            EventModel::Start(_) => {
                lemma_close_len_bounds(evs.drop_first(), depth + 1);
            },
            _ => {
                lemma_close_len_bounds(evs.drop_first(), depth);
            },
        }
    }
}

/// Scanning past one more unmatched closing tag decomposes: first
/// reach the close at the present depth, then scan on from there.
pub proof fn lemma_close_len_chain(evs: Seq<EventModel>, depth: nat)
    ensures
        close_len(evs, depth + 1) == (match close_len(evs, depth) {
            Option::Some(k) => (match close_len(evs.skip(k), 0) {
                Option::Some(m) => Option::Some(k + m),
                Option::None => Option::<int>::None,
            }),
            Option::None => Option::<int>::None,
        }),
    decreases evs.len(),
{
    lemma_close_len_bounds(evs, depth);
    if evs.len() > 0 {
        match evs[0] {
            EventModel::End(_) => {
                if depth == 0 {
                    assert(evs.skip(1) =~= evs.drop_first());
                } else {
                    lemma_close_len_chain(evs.drop_first(), (depth - 1) as nat);
                    lemma_close_len_bounds(evs.drop_first(), (depth - 1) as nat);
                    match close_len(evs, depth) {
                        Option::Some(k) => {
                            assert(evs.drop_first().skip(k - 1) =~= evs.skip(k));
                        },
                        Option::None => {},
                    }
                }
            },
            EventModel::Start(_) => {
                lemma_close_len_chain(evs.drop_first(), depth + 1);
                lemma_close_len_bounds(evs.drop_first(), depth + 1);
                match close_len(evs, depth) {
                    Option::Some(k) => {
                        assert(evs.drop_first().skip(k - 1) =~= evs.skip(k));
                    },
                    Option::None => {},
                }
            },
            _ => {
                lemma_close_len_chain(evs.drop_first(), depth);
                lemma_close_len_bounds(evs.drop_first(), depth);
                match close_len(evs, depth) {
                    Option::Some(k) => {
                        assert(evs.drop_first().skip(k - 1) =~= evs.skip(k));
                    },
                    Option::None => {},
                }
            },
        }
    }
}

/// The first `n` events hold nothing the content level rejects: only
/// element openings and closings, text and comments — no declaration,
/// doctype or processing instruction, and no stray end-of-input
/// marker.
pub open spec fn skippable_content(evs: Seq<EventModel>, n: int) -> bool {
    forall|j: int|
        0 <= j < n ==> ((#[trigger] evs[j]) is Start || evs[j] is Empty || evs[j] is End
            || evs[j] is Text || evs[j] is Comment)
}

/// How consuming the rest of one open element changes the event
/// stream: for a self-closing element nothing is consumed; otherwise
/// exactly the subtree up to and including its closing tag is gone.
pub open spec fn consumed_subtree(
    before: Seq<EventModel>,
    after: Seq<EventModel>,
    closed: bool,
) -> bool {
    if closed {
        after == before
    } else {
        close_len(before, 0) matches Some(n) && after == before.skip(n)
    }
}

impl View for Event {
    type V = EventModel;

    open spec fn view(&self) -> EventModel {
        match self {
            Event::Start(s) => EventModel::Start(s@),
            Event::Empty(s) => EventModel::Empty(s@),
            Event::End(t) => EventModel::End(t@),
            Event::Text(t) => EventModel::Text(t@),
            Event::Decl => EventModel::Decl,
            Event::DocType => EventModel::DocType,
            Event::Pi => EventModel::Pi,
            Event::Comment => EventModel::Comment,
            Event::Eof => EventModel::Eof,
        }
    }
}

} // verus!
