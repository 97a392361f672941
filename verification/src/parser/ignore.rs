//! Skipping an element together with all its content.

use vstd::prelude::*;

verus! {

use crate::adapter::parser::Parser;
use crate::errors::Error;
use crate::events::{
    close_len, consumed_subtree, lemma_close_len_chain, skippable_content, Event, EventModel,
};
use crate::parser::state::ElementState;

/// Relates the events left now to the events at entry: the consumed
/// prefix lies strictly inside the element's subtree, so the distance
/// to its closing tag shrinks by exactly what was consumed.
pub open spec fn mid_subtree(evs0: Seq<EventModel>, cur: Seq<EventModel>) -> bool {
    &&& cur == evs0.skip(evs0.len() - cur.len())
    &&& close_len(evs0, 0) == (match close_len(cur, 0) {
        Option::Some(m) => Option::Some(evs0.len() - cur.len() + m),
        Option::None => Option::<int>::None,
    })
}

/// Consumes the rest of an element whose opening tag was already read:
/// exactly everything up to and including the matching closing tag,
/// nested elements included.  `closed` says the element was
/// self-closing, so nothing remains to consume.
pub fn skip_element(parser: &mut Parser<'_>, closed: bool) -> (r: Result<(), Error>)
    ensures
        r is Ok ==> final(parser).events().len() <= old(parser).events().len(),
        r is Ok ==> consumed_subtree(old(parser).events(), final(parser).events(), closed),
        closed ==> r is Ok,
        (!closed && (match close_len(old(parser).events(), 0) {
            Option::Some(n) => skippable_content(old(parser).events(), n),
            Option::None => false,
        })) ==> r is Ok,
    decreases parser.events().len(),
{
    if closed {
        return Ok(());
    }
    proof {
        assert(old(parser).events().skip(0) =~= old(parser).events());
    }
    let ghost benign: bool = (match close_len(old(parser).events(), 0) {
        Option::Some(n) => skippable_content(old(parser).events(), n),
        Option::None => false,
    });
    loop
        invariant
            !closed,
            parser.events().len() <= old(parser).events().len(),
            mid_subtree(old(parser).events(), parser.events()),
            benign == (match close_len(old(parser).events(), 0) {
                Option::Some(n) => skippable_content(old(parser).events(), n),
                Option::None => false,
            }),
        decreases parser.events().len(),
    {
        let ghost evs0 = old(parser).events();
        let ghost cur = parser.events();
        proof {
            if benign {
                let n = close_len(evs0, 0)->0;
                assert(close_len(cur, 0) is Some);
                crate::events::lemma_close_len_bounds(cur, 0);
                assert(cur.len() > 0);
                assert(cur[0] == evs0[evs0.len() - cur.len()]);
                assert(evs0.len() - cur.len() < n);
            }
        }
        match parser.next_event()? {
            Event::End(_) => {
                proof {
                    assert(cur.len() > 0 && cur[0] is End);
                    assert(close_len(cur, 0) == Option::<int>::Some(1));
                    assert(parser.events() == cur.drop_first());
                    assert(cur.drop_first() =~= evs0.skip(evs0.len() - cur.len() + 1));
                }
                return Ok(());
            },
            Event::Eof => {
                proof {
                    if benign {
                        assert(cur.len() == 0 || !(cur[0] is Eof));
                    }
                }
                return Err(crate::errors::unexpected_eof("unclosed element"));
            },
            Event::Start(_) => {
                proof {
                    assert(cur.len() > 0 && cur[0] is Start);
                    assert(parser.events() == cur.drop_first());
                    assert(cur.drop_first() =~= evs0.skip(evs0.len() - cur.len() + 1));
                }
                let ghost cur1 = parser.events();
                proof {
                    if benign {
                        let n = close_len(evs0, 0)->0;
                        let m = close_len(cur, 0)->0;
                        lemma_close_len_chain(cur1, 0);
                        crate::events::lemma_close_len_bounds(cur1, 0);
                        let k = close_len(cur1, 0)->0;
                        crate::events::lemma_close_len_bounds(cur1.skip(k), 0);
                        assert(close_len(cur1, 0) is Some);
                        let consumed = evs0.len() - cur.len();
                        assert(skippable_content(cur1, k)) by {
                            assert forall|j: int|
                                0 <= j < k implies ((#[trigger] cur1[j]) is Start
                                || cur1[j] is Empty || cur1[j] is End || cur1[j] is Text
                                || cur1[j] is Comment) by {
                                assert(cur1[j] == evs0[consumed + 1 + j]);
                                assert(consumed + 1 + j < n);
                            }
                        }
                    }
                }
                skip_element(parser, false)?;
                proof {
                    let k = close_len(cur1, 0)->0;
                    let cur2 = parser.events();
                    assert(cur2 == cur1.skip(k));
                    crate::events::lemma_close_len_bounds(cur1, 0);
                    lemma_close_len_chain(cur1, 0);
                    assert(close_len(cur, 0) == (match close_len(cur1, 1) {
                        Option::Some(n) => Option::Some(1 + n),
                        Option::None => Option::<int>::None,
                    }));
                    assert(cur1.skip(k) =~= evs0.skip(evs0.len() - cur.len() + 1 + k));
                }
            },
            Event::Empty(_) | Event::Text(_) | Event::Comment => {
                proof {
                    assert(cur.len() > 0);
                    assert(!(cur[0] is Start) && !(cur[0] is End));
                    assert(parser.events() == cur.drop_first());
                    assert(cur.drop_first() =~= evs0.skip(evs0.len() - cur.len() + 1));
                }
            },
            Event::Decl => {
                return Err(crate::errors::unexpected_decl());
            },
            Event::DocType => {
                return Err(crate::errors::unexpected_doctype());
            },
            Event::Pi => {
                return Err(crate::errors::unexpected_pi());
            },
        }
    }
}

/// An [`ElementState`] that accepts any element and ignores all of its
/// content: attributes, text and nested elements alike.
pub struct IgnoreElement;

impl ElementState for IgnoreElement {
    type Output = ();

    /// Accepts any tag.
    open spec fn spec_accepts(tag: Seq<char>) -> bool {
        true
    }

    /// Every attribute is dropped.
    open spec fn spec_attrs_total() -> bool {
        true
    }

    /// Every text run is dropped.
    open spec fn spec_text_total() -> bool {
        true
    }

    /// Finishing always succeeds: nothing is required.
    open spec fn spec_finish_total() -> bool {
        true
    }

    /// No fixed tag was expected.
    open spec fn spec_not_found(e: Error) -> bool {
        e is MissingUnknownElement
    }

    fn parse_element_start(tag: &str) -> (r: Option<Self>) {
        let _ = tag;
        Some(IgnoreElement)
    }

    fn parse_element_attribute(&mut self, key: &str, value: &str) -> (r: Result<(), Error>)
        ensures
            r is Ok,
    {
        let _ = key;
        let _ = value;
        Ok(())
    }

    fn parse_element_inner_text(&mut self, text: String) -> (r: Result<(), Error>)
        ensures
            r is Ok,
    {
        let _ = text;
        Ok(())
    }

    fn parse_element_inner_node(
        &mut self,
        start: crate::events::StartTag,
        closed: bool,
        parser: &mut Parser<'_>,
    ) -> (r: Result<(), Error>)
        ensures
            closed ==> r is Ok,
            (!closed && (match close_len(old(parser).events(), 0) {
                Option::Some(n) => skippable_content(old(parser).events(), n),
                Option::None => false,
            })) ==> r is Ok,
    {
        let _ = start;
        skip_element(parser, closed)
    }

    fn parse_element_finish(self) -> (r: Result<(), Error>)
        ensures
            r is Ok,
    {
        Ok(())
    }

    fn parse_error_not_found<T>() -> (r: Result<T, Error>) {
        Err(crate::errors::missing_unknown_element())
    }
}

} // verus!
