//! Serializing collections of elements and text: the content side of
//! an element.

use vstd::prelude::*;

verus! {

use crate::adapter::serializer::{flushed, Serializer};
use crate::errors::Error;
use crate::events::EventModel;
use crate::serializer::sink::{element_events, Element};

/// Serializable inner data: what can stand among an element's
/// children.  Emits zero or more events; field values emit in
/// declaration order.
pub trait Inner {
    /// The events this value stands for, in order.
    spec fn spec_events(&self) -> Seq<EventModel>;

    /// Whether emitting this value can never fail: all of its parts
    /// are total.
    spec fn spec_emit_total(&self) -> bool;

    /// Emits all contained text and elements into the sink.
    fn serialize_elements(&self, serializer: &mut Serializer) -> (r: Result<(), Error>)
        ensures
            r is Ok ==> (if self.spec_events().len() == 0 {
                final(serializer).out() == old(serializer).out() && final(serializer).pending()
                    == old(serializer).pending()
            } else {
                final(serializer).pending() is None && final(serializer).out() == old(
                    serializer,
                ).out() + flushed(old(serializer).pending()) + self.spec_events()
            }),
            final(serializer).out().len() >= old(serializer).out().len(),
            self.spec_emit_total() ==> r is Ok,
    ;
}

/// A `String` emits one run of inner text, even when empty: an element
/// with a text field never serializes as self-closing.
impl Inner for String {
    open spec fn spec_events(&self) -> Seq<EventModel> {
        seq![EventModel::Text(self@)]
    }

    /// Emitting text never fails.
    open spec fn spec_emit_total(&self) -> bool {
        true
    }

    fn serialize_elements(&self, serializer: &mut Serializer) -> (r: Result<(), Error>)
        ensures
            r is Ok,
    {
        serializer.serialize_text(self.as_str())
    }
}

/// An element emits itself.
impl<E: Element> Inner for E {
    open spec fn spec_events(&self) -> Seq<EventModel> {
        element_events(self)
    }

    open spec fn spec_emit_total(&self) -> bool {
        self.spec_serialize_total()
    }

    fn serialize_elements(&self, serializer: &mut Serializer) -> (r: Result<(), Error>) {
        let r = serializer.serialize_element(self);
        proof {
            if r is Ok {
                assert(element_events(self).len() > 0);
            }
        }
        r
    }
}

/// Optional inner data emits nothing when absent.
impl<I: Inner> Inner for Option<I> {
    open spec fn spec_events(&self) -> Seq<EventModel> {
        match self {
            Option::Some(i) => i.spec_events(),
            Option::None => Seq::<EventModel>::empty(),
        }
    }

    /// An absent value emits nothing, which never fails.
    open spec fn spec_emit_total(&self) -> bool {
        match self {
            Option::Some(i) => i.spec_emit_total(),
            Option::None => true,
        }
    }

    fn serialize_elements(&self, serializer: &mut Serializer) -> (r: Result<(), Error>)
        ensures
            self is None ==> r is Ok,
    {
        match self {
            Some(i) => i.serialize_elements(serializer),
            None => Ok(()),
        }
    }
}

/// The events of a sequence of inner values, concatenated in order.
pub open spec fn events_of_list<I: Inner>(s: Seq<I>) -> Seq<EventModel>
    decreases s.len(),
{
    if s.len() == 0 {
        Seq::<EventModel>::empty()
    } else {
        events_of_list(s.drop_last()) + s.last().spec_events()
    }
}

/// A list emits each item in document order.
impl<I: Inner> Inner for Vec<I> {
    open spec fn spec_events(&self) -> Seq<EventModel> {
        events_of_list(self@)
    }

    open spec fn spec_emit_total(&self) -> bool {
        forall|j: int| 0 <= j < self@.len() ==> (#[trigger] self@[j]).spec_emit_total()
    }

    fn serialize_elements(&self, serializer: &mut Serializer) -> (r: Result<(), Error>)
        ensures
            self@.len() == 0 ==> r is Ok,
    {
        let n = self.len();
        let mut i: usize = 0;
        while i < n
            invariant
                i <= n,
                n == self@.len(),
                (if events_of_list(self@.take(i as int)).len() == 0 {
                    serializer.out() == old(serializer).out() && serializer.pending() == old(
                        serializer,
                    ).pending()
                } else {
                    serializer.pending() is None && serializer.out() == old(serializer).out()
                        + flushed(old(serializer).pending()) + events_of_list(
                        self@.take(i as int),
                    )
                }),
            decreases n - i,
        {
            let item = &self[i];
            let r = item.serialize_elements(serializer);
            if r.is_err() {
                return r;
            }
            proof {
                assert(self@.take(i + 1).drop_last() =~= self@.take(i as int));
                assert(self@.take(i + 1).last() == self@[i as int]);
                assert(events_of_list(self@.take(i + 1)) == events_of_list(self@.take(i as int))
                    + item.spec_events());
                if events_of_list(self@.take(i as int)).len() == 0 {
                    assert(events_of_list(self@.take(i + 1)) =~= item.spec_events());
                    if item.spec_events().len() > 0 {
                        assert(serializer.out() =~= old(serializer).out() + flushed(
                            old(serializer).pending(),
                        ) + events_of_list(self@.take(i + 1)));
                    }
                } else {
                    assert(flushed(Option::<crate::events::StartTagModel>::None)
                        =~= Seq::<EventModel>::empty());
                    assert(serializer.out() =~= old(serializer).out() + flushed(
                        old(serializer).pending(),
                    ) + events_of_list(self@.take(i + 1)));
                }
            }
            i += 1;
        }
        proof {
            assert(self@.take(n as int) =~= self@);
        }
        Ok(())
    }
}

/// Serializing lists preserves order: the events of one list followed
/// by another are the events of the first, then the events of the
/// second — so every item's events stand in list order in the output.
pub proof fn lemma_events_of_list_concat<I: Inner>(a: Seq<I>, b: Seq<I>)
    ensures
        events_of_list(a + b) == events_of_list(a) + events_of_list(b),
    decreases b.len(),
{
    if b.len() == 0 {
        assert(a + b =~= a);
        assert(events_of_list(a) + events_of_list(b) =~= events_of_list(a));
    } else {
        lemma_events_of_list_concat(a, b.drop_last());
        assert((a + b).drop_last() =~= a + b.drop_last());
        assert((a + b).last() == b.last());
        assert(events_of_list(a) + events_of_list(b.drop_last()) + b.last().spec_events()
            =~= events_of_list(a) + events_of_list(b));
    }
}

} // verus!
