//! Serializable elements whose tag is fixed at definition time.

use vstd::prelude::*;

verus! {

use crate::errors::Error;
use crate::events::{AttrModel, EventModel, StartTagModel};
use crate::serializer::sink::Element;

/// Serializable element with a fixed tag, known without an instance.
pub trait FixedElement {
    /// The fixed tag.
    spec fn spec_fixed_tag() -> Seq<char>;

    /// The element's attributes, in declaration order.
    spec fn spec_attrs(&self) -> Seq<AttrModel>;

    /// The events of the element's content, in declaration order.
    spec fn spec_inner(&self) -> Seq<EventModel>;

    /// Same as [`Element::spec_serialize_total`].
    spec fn spec_serialize_total(&self) -> bool;

    /// The fixed tag.
    fn tag() -> (t: &'static str)
        ensures
            t@ == Self::spec_fixed_tag(),
    ;

    /// Same as [`Element::serialize`].
    fn serialize(&self, serializer: &mut crate::adapter::serializer::Serializer) -> (r: Result<
        (),
        Error,
    >)
        requires
            old(serializer).pending() is Some,
        ensures
            r is Ok ==> ({
                let q = old(serializer).pending()->Some_0;
                if self.spec_inner().len() == 0 {
                    final(serializer).pending() == Some(
                        StartTagModel { tag: q.tag, attrs: q.attrs + self.spec_attrs() },
                    ) && final(serializer).out() == old(serializer).out()
                } else {
                    final(serializer).pending() is None && final(serializer).out() == old(
                        serializer,
                    ).out() + seq![
                        EventModel::Start(
                            StartTagModel { tag: q.tag, attrs: q.attrs + self.spec_attrs() },
                        ),
                    ] + self.spec_inner()
                }
            }),
            final(serializer).out().len() >= old(serializer).out().len(),
            self.spec_serialize_total() ==> r is Ok,
    ;
}

impl<E: FixedElement> Element for E {
    open spec fn spec_tag(&self) -> Seq<char> {
        E::spec_fixed_tag()
    }

    open spec fn spec_attrs(&self) -> Seq<AttrModel> {
        <E as FixedElement>::spec_attrs(self)
    }

    open spec fn spec_inner(&self) -> Seq<EventModel> {
        <E as FixedElement>::spec_inner(self)
    }

    open spec fn spec_serialize_total(&self) -> bool {
        <E as FixedElement>::spec_serialize_total(self)
    }

    fn tag(&self) -> (t: String) {
        <E as FixedElement>::tag().to_owned()
    }

    fn serialize(&self, serializer: &mut crate::adapter::serializer::Serializer) -> (r: Result<
        (),
        Error,
    >) {
        <E as FixedElement>::serialize(self, serializer)
    }
}

} // verus!
