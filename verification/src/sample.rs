//! Ready-made element types exercising the whole machinery: a marker
//! element that ignores unknown content, a record with required
//! attributes, an optional child and a nested inner aggregate, an
//! element with one optional attribute, and smaller shapes showing
//! ambiguous slots, repeated children, required children and a whole
//! optional inner group.

use vstd::prelude::*;

verus! {

use crate::adapter::parser::Parser;
use crate::adapter::serializer::Serializer;
use crate::errors::Error;
use crate::events::{AttrModel, EventModel, StartTag};
use crate::parser::{
    skip_element, FixedElementState, InnerParseResult, InnerState,
    ParseElementList, ParseElementOnce, ParseElementOptional, ParseInnerOptional, Value,
    ValueDefault, ValueString,
};
use crate::serializer::Inner;
use crate::IgnoreUnknown;

/// An empty marker element, `<foo/>`, that silently drops every
/// unknown attribute, child element and text run inside it.
#[derive(Debug, Clone, Copy, PartialEq, Eq, Structural)]
pub struct Foo;

impl Foo {
    /// The unknown-data policy of `foo` elements: ignore everything.
    pub fn ignore_unknown() -> (p: IgnoreUnknown)
        ensures
            p.ignore_elements && p.ignore_attributes && p.ignore_text,
    {
        IgnoreUnknown::all(true)
    }
}

/// Parse state for [`Foo`].
#[derive(Default)]
pub struct FooState;

impl FixedElementState for FooState {
    type Output = Foo;

    open spec fn spec_tag() -> Seq<char> {
        "foo"@
    }

    open spec fn spec_attrs_total() -> bool {
        true
    }

    open spec fn spec_text_total() -> bool {
        true
    }

    open spec fn spec_finish_total() -> bool {
        true
    }

    fn tag() -> (t: &'static str) {
        "foo"
    }

    fn parse_element_attribute(&mut self, key: &str, value: &str) -> (r: Result<(), Error>)
        ensures
            r is Ok,
    {
        let _ = value;
        if Foo::ignore_unknown().attributes() {
            Ok(())
        } else {
            Err(crate::errors::unexpected_attribute(key))
        }
    }

    fn parse_element_inner_text(&mut self, text: String) -> (r: Result<(), Error>)
        ensures
            r is Ok,
    {
        let _ = text;
        if Foo::ignore_unknown().text() {
            Ok(())
        } else {
            Err(crate::errors::unexpected_text())
        }
    }

    /// Unknown children are skipped whole; a self-closing child, or a
    /// well-formed subtree of plain content, is always consumed
    /// successfully.
    fn parse_element_inner_node(&mut self, start: StartTag, closed: bool, parser: &mut Parser<
        '_,
    >) -> (r: Result<(), Error>)
        ensures
            closed ==> r is Ok,
            (!closed && (match crate::events::close_len(old(parser).events(), 0) {
                Option::Some(n) => crate::events::skippable_content(old(parser).events(), n),
                Option::None => false,
            })) ==> r is Ok,
    {
        if Foo::ignore_unknown().elements() {
            skip_element(parser, closed)
        } else {
            let _ = closed;
            Err(crate::errors::unexpected_element(start.tag.as_str()))
        }
    }

    fn parse_element_finish(self) -> (r: Result<Foo, Error>)
        ensures
            r matches Ok(o) && o == Foo,
    {
        Ok(Foo)
    }
}

impl crate::parser::Element for Foo {
    type ParseState = FooState;
}

impl crate::serializer::FixedElement for Foo {
    open spec fn spec_fixed_tag() -> Seq<char> {
        "foo"@
    }

    open spec fn spec_attrs(&self) -> Seq<AttrModel> {
        Seq::<AttrModel>::empty()
    }

    open spec fn spec_inner(&self) -> Seq<EventModel> {
        Seq::<EventModel>::empty()
    }

    /// Every part of this element serializes without failing.
    open spec fn spec_serialize_total(&self) -> bool {
        true
    }

    fn tag() -> (t: &'static str) {
        "foo"
    }

    fn serialize(&self, serializer: &mut Serializer) -> (r: Result<(), Error>)
        ensures
            r is Ok,
    {
        proof {
            let q = old(serializer).pending()->Some_0;
            assert(q.attrs + self.spec_attrs() =~= q.attrs);
        }
        Ok(())
    }
}

/// The inner aggregate of a [`Data`] element: an optional `foo` child
/// followed by the element's accumulated text.
#[derive(Debug, Clone, PartialEq, Eq)]
pub struct DataInner {
    pub foo2: Option<Foo>,
    pub content: String,
}

/// Parse state for [`DataInner`].
pub struct DataInnerState {
    /// State of the optional `foo2` child, offered first.
    pub foo2: ParseElementOptional<FooState>,
    /// The text accumulated so far.
    pub content: String,
}

impl Default for DataInnerState {
    fn default() -> (r: Self)
        ensures
            r.foo2.element is None,
            r.content@ == Seq::<char>::empty(),
    {
        DataInnerState { foo2: ParseElementOptional::default(), content: String::new() }
    }
}

impl InnerState for DataInnerState {
    type Output = DataInner;

    fn parse_inner_node(&mut self, start: StartTag, closed: bool, parser: &mut Parser<'_>) -> (r:
        Result<InnerParseResult<StartTag>, Error>)
        ensures
            (r matches Ok(InnerParseResult::Success) ==> old(self).foo2.element is None && final(self).foo2.element is Some && final(self).content == old(self).content
                && start@.tag == FooState::spec_tag()),
            (r is Err ==> start@.tag == FooState::spec_tag()),
    {
        match self.foo2.parse_inner_node(start, closed, parser)? {
            InnerParseResult::Success => Ok(InnerParseResult::Success),
            InnerParseResult::Next(s) => Ok(InnerParseResult::Next(s)),
        }
    }

    fn parse_inner_text(&mut self, text: String) -> (r: Result<InnerParseResult<String>, Error>)
        ensures
            r matches Ok(InnerParseResult::Success),
            final(self).content@ == old(self).content@ + text@,
            final(self).foo2 == old(self).foo2,
    {
        match self.foo2.parse_inner_text(text)? {
            InnerParseResult::Success => Ok(InnerParseResult::Success),
            InnerParseResult::Next(t) => {
                match self.content.parse_inner_text(t)? {
                    InnerParseResult::Success => Ok(InnerParseResult::Success),
                    InnerParseResult::Next(t2) => Ok(InnerParseResult::Next(t2)),
                }
            },
        }
    }

    fn parse_inner_finish(self) -> (r: Result<DataInner, Error>)
        ensures
            r matches Ok(d) && d.foo2 == self.foo2.element && d.content == self.content,
    {
        let foo2 = self.foo2.parse_inner_finish()?;
        let content = self.content.parse_inner_finish()?;
        Ok(DataInner { foo2, content })
    }
}

impl crate::parser::Inner for DataInner {
    type ParseState = DataInnerState;
}

impl Inner for DataInner {
    open spec fn spec_events(&self) -> Seq<EventModel> {
        <Option<Foo> as Inner>::spec_events(&self.foo2) + seq![EventModel::Text(self.content@)]
    }

    /// Its parts — an optional marker and a text run — are total.
    open spec fn spec_emit_total(&self) -> bool {
        true
    }

    fn serialize_elements(&self, serializer: &mut Serializer) -> (r: Result<(), Error>) {
        self.foo2.serialize_elements(serializer)?;
        let r = serializer.serialize_text(self.content.as_str());
        proof {
            if r is Ok {
                if <Option<Foo> as Inner>::spec_events(&self.foo2).len() == 0 {
                    assert(self.spec_events() =~= seq![EventModel::Text(self.content@)]);
                    assert(serializer.out() =~= old(serializer).out() + crate::adapter::serializer::flushed(
                        old(serializer).pending(),
                    ) + self.spec_events());
                } else {
                    assert(crate::adapter::serializer::flushed(
                        Option::<crate::events::StartTagModel>::None,
                    ) =~= Seq::<EventModel>::empty());
                    assert(serializer.out() =~= old(serializer).out() + crate::adapter::serializer::flushed(
                        old(serializer).pending(),
                    ) + self.spec_events());
                }
            }
        }
        r
    }
}

/// A record element, `<data key=".." other="..">`, with a required
/// string attribute, a required numeric attribute, an optional `foo`
/// child and a nested inner aggregate.
#[derive(Debug, Clone, PartialEq, Eq)]
pub struct Data {
    pub key: String,
    pub other: u32,
    pub foo1: Option<Foo>,
    pub inner: DataInner,
}

/// Parse state for [`Data`].
pub struct DataState {
    /// The `key` attribute, once seen.
    pub key: Option<String>,
    /// The `other` attribute, once seen and converted.
    pub other: Option<u32>,
    /// State of the optional `foo1` child, offered first.
    pub foo1: ParseElementOptional<FooState>,
    /// State of the nested inner aggregate, offered second.
    pub inner: DataInnerState,
}

impl Default for DataState {
    fn default() -> (r: Self)
        ensures
            r.key is None,
            r.other is None,
            r.foo1.element is None,
            r.inner.foo2.element is None,
            r.inner.content@ == Seq::<char>::empty(),
    {
        DataState {
            key: None,
            other: None,
            foo1: ParseElementOptional::default(),
            inner: DataInnerState::default(),
        }
    }
}

impl FixedElementState for DataState {
    type Output = Data;

    open spec fn spec_tag() -> Seq<char> {
        "data"@
    }

    open spec fn spec_attrs_total() -> bool {
        false
    }

    open spec fn spec_text_total() -> bool {
        true
    }

    open spec fn spec_finish_total() -> bool {
        false
    }

    fn tag() -> (t: &'static str) {
        "data"
    }

    /// The first declared attribute field whose key matches and whose
    /// slot is still empty claims the attribute; an unclaimed attribute
    /// is an error, since `data` does not ignore unknown attributes.
    fn parse_element_attribute(&mut self, key: &str, value: &str) -> (r: Result<(), Error>)
        ensures
            key@ == "key"@ && old(self).key is None ==> (r is Ok && final(self).key is Some
                && final(self).key->0@ == value@ && final(self).other == old(self).other && final(self).foo1 == old(self).foo1 && final(self).inner == old(self).inner),
            key@ == "other"@ && old(self).other is None ==> (final(self).key == old(self).key
                && final(self).foo1 == old(self).foo1 && final(self).inner == old(self).inner && (
            match crate::text::spec_parse_u32(value@) {
                Some(n) => r is Ok && final(self).other == Some(n),
                None => r is Err && final(self).other is None,
            })),
            !(key@ == "key"@ && old(self).key is None) && !(key@ == "other"@ && old(self).other
                is None) ==> ((r matches Err(e) && e matches Error::UnexpectedAttribute {
                key: k,
            } && k@ == key@) && *final(self) == *old(self)),
    {
        proof {
            reveal_strlit("key");
            reveal_strlit("other");
            assert("key"@.len() == 3);
            assert("other"@.len() == 5);
        }
        if crate::text::str_eq(key, "key") && self.key.is_none() {
            let v = <ValueString as Value<String>>::parse_value(value)?;
            self.key = Some(v);
            Ok(())
        } else if crate::text::str_eq(key, "other") && self.other.is_none() {
            let v = <ValueDefault as Value<u32>>::parse_value(value)?;
            self.other = Some(v);
            Ok(())
        } else {
            Err(crate::errors::unexpected_attribute(key))
        }
    }

    /// Child elements are offered to `foo1` first, then to the inner
    /// aggregate; an element claimed by neither is an error.
    fn parse_element_inner_node(&mut self, start: StartTag, closed: bool, parser: &mut Parser<
        '_,
    >) -> (r: Result<(), Error>)
        ensures
            start@.tag == FooState::spec_tag() && old(self).foo1.element is None && r is Ok
                ==> final(self).foo1.element is Some,
            start@.tag != FooState::spec_tag() ==> r is Err && *final(self) == *old(self),
            start@.tag == FooState::spec_tag() && old(self).foo1.element is None && closed
                && start@.attrs.len() == 0 ==> r is Ok,
    {
        match self.foo1.parse_inner_node(start, closed, parser)? {
            InnerParseResult::Success => Ok(()),
            InnerParseResult::Next(start) => {
                match self.inner.parse_inner_node(start, closed, parser)? {
                    InnerParseResult::Success => Ok(()),
                    InnerParseResult::Next(start) => {
                        Err(crate::errors::unexpected_element(start.tag.as_str()))
                    },
                }
            },
        }
    }

    fn parse_element_inner_text(&mut self, text: String) -> (r: Result<(), Error>)
        ensures
            r is Ok,
            final(self).inner.content@ == old(self).inner.content@ + text@,
            final(self).key == old(self).key,
            final(self).other == old(self).other,
            final(self).foo1 == old(self).foo1,
    {
        match self.foo1.parse_inner_text(text)? {
            InnerParseResult::Success => Ok(()),
            InnerParseResult::Next(t) => {
                match self.inner.parse_inner_text(t)? {
                    InnerParseResult::Success => Ok(()),
                    InnerParseResult::Next(t2) => {
                        if crate::text::is_all_whitespace(t2.as_str()) {
                            Ok(())
                        } else {
                            Err(crate::errors::unexpected_text())
                        }
                    },
                }
            },
        }
    }

    /// Every required attribute must have been supplied; the error
    /// names the first missing one, in declaration order.
    fn parse_element_finish(self) -> (r: Result<Data, Error>)
        ensures
            self.key is None ==> (r matches Err(e) && e matches Error::MissingAttribute { key: k }
                && k@ == "key"@),
            self.key is Some && self.other is None ==> (r matches Err(e) && e matches Error::MissingAttribute {
                key: k,
            } && k@ == "other"@),
            self.key is Some && self.other is Some ==> (r matches Ok(d) && d == (Data {
                key: self.key->0,
                other: self.other->0,
                foo1: self.foo1.element,
                inner: DataInner { foo2: self.inner.foo2.element, content: self.inner.content },
            })),
    {
        let key = match self.key {
            Some(k) => k,
            None => {
                return Err(crate::errors::missing_attribute("key"));
            },
        };
        let other = match self.other {
            Some(o) => o,
            None => {
                return Err(crate::errors::missing_attribute("other"));
            },
        };
        let foo1 = self.foo1.parse_inner_finish()?;
        let inner = self.inner.parse_inner_finish()?;
        Ok(Data { key, other, foo1, inner })
    }
}

impl crate::parser::Element for Data {
    type ParseState = DataState;
}

impl crate::serializer::FixedElement for Data {
    open spec fn spec_fixed_tag() -> Seq<char> {
        "data"@
    }

    open spec fn spec_attrs(&self) -> Seq<AttrModel> {
        seq![
            AttrModel { key: "key"@, value: self.key@ },
            AttrModel { key: "other"@, value: crate::text::spec_format_u32(self.other as nat) },
        ]
    }

    open spec fn spec_inner(&self) -> Seq<EventModel> {
        <Option<Foo> as Inner>::spec_events(&self.foo1) + <DataInner as Inner>::spec_events(
            &self.inner,
        )
    }

    /// Every part of this element serializes without failing.
    open spec fn spec_serialize_total(&self) -> bool {
        true
    }

    fn tag() -> (t: &'static str) {
        "data"
    }

    fn serialize(&self, serializer: &mut Serializer) -> (r: Result<(), Error>) {
        let ghost q = old(serializer).pending()->Some_0;
        serializer.serialize_attribute("key", self.key.as_str())?;
        let other_text = <crate::serializer::ValueDefault as crate::serializer::Value<u32>>::serialize_value(&self.other)?;
        serializer.serialize_attribute("other", other_text.as_str())?;
        proof {
            assert(serializer.pending()->Some_0.attrs =~= q.attrs + self.spec_attrs());
        }
        self.foo1.serialize_elements(serializer)?;
        let r = self.inner.serialize_elements(serializer);
        proof {
            if r is Ok {
                assert(<DataInner as Inner>::spec_events(&self.inner).len() > 0);
                assert(self.spec_inner().len() > 0);
                let full = crate::events::StartTagModel {
                    tag: q.tag,
                    attrs: q.attrs + self.spec_attrs(),
                };
                if <Option<Foo> as Inner>::spec_events(&self.foo1).len() == 0 {
                    assert(serializer.out() =~= old(serializer).out() + seq![
                        EventModel::Start(full),
                    ] + self.spec_inner());
                } else {
                    assert(crate::adapter::serializer::flushed(
                        Option::<crate::events::StartTagModel>::None,
                    ) =~= Seq::<EventModel>::empty());
                    assert(serializer.out() =~= old(serializer).out() + seq![
                        EventModel::Start(full),
                    ] + self.spec_inner());
                }
            }
        }
        r
    }
}

/// An element with a single optional attribute, `<Example attr1=".."/>`.
#[derive(Debug, Clone, PartialEq, Eq)]
pub struct Example {
    pub attr1: Option<String>,
}

/// Parse state for [`Example`].
pub struct ExampleState {
    /// The `attr1` attribute, once seen.
    pub attr1: Option<String>,
}

impl Default for ExampleState {
    fn default() -> (r: Self)
        ensures
            r.attr1 is None,
    {
        ExampleState { attr1: None }
    }
}

impl FixedElementState for ExampleState {
    type Output = Example;

    open spec fn spec_tag() -> Seq<char> {
        "Example"@
    }

    open spec fn spec_attrs_total() -> bool {
        false
    }

    open spec fn spec_text_total() -> bool {
        false
    }

    open spec fn spec_finish_total() -> bool {
        true
    }

    fn tag() -> (t: &'static str) {
        "Example"
    }

    fn parse_element_attribute(&mut self, key: &str, value: &str) -> (r: Result<(), Error>)
        ensures
            key@ == "attr1"@ && old(self).attr1 is None ==> (r is Ok && final(self).attr1 is Some
                && final(self).attr1->0@ == value@),
            !(key@ == "attr1"@ && old(self).attr1 is None) ==> ((r matches Err(e)
                && e matches Error::UnexpectedAttribute { key: k } && k@ == key@) && *final(self)
                == *old(self)),
    {
        if crate::text::str_eq(key, "attr1") && self.attr1.is_none() {
            let v = <ValueString as Value<String>>::parse_value(value)?;
            self.attr1 = Some(v);
            Ok(())
        } else {
            Err(crate::errors::unexpected_attribute(key))
        }
    }

    /// Whitespace is tolerated; any other text is unexpected.
    fn parse_element_inner_text(&mut self, text: String) -> (r: Result<(), Error>)
        ensures
            crate::text::is_blank(text@) <==> r is Ok,
            r matches Err(e) ==> e is UnexpectedText,
            *final(self) == *old(self),
    {
        if !crate::text::is_all_whitespace(text.as_str()) {
            return Err(crate::errors::unexpected_text());
        }
        Ok(())
    }

    /// No children are declared; any child element is unexpected.
    fn parse_element_inner_node(&mut self, start: StartTag, closed: bool, parser: &mut Parser<
        '_,
    >) -> (r: Result<(), Error>)
        ensures
            (r matches Err(e) && e matches Error::UnexpectedElement { tag: t } && t@
                == start@.tag),
            *final(self) == *old(self),
            final(parser).events() == old(parser).events(),
    {
        let _ = closed;
        let _ = parser;
        Err(crate::errors::unexpected_element(start.tag.as_str()))
    }

    /// The attribute is optional: absence yields `None`.
    fn parse_element_finish(self) -> (r: Result<Example, Error>)
        ensures
            r matches Ok(e) && e.attr1 == self.attr1,
    {
        Ok(Example { attr1: self.attr1 })
    }
}

impl crate::parser::Element for Example {
    type ParseState = ExampleState;
}

impl crate::serializer::FixedElement for Example {
    open spec fn spec_fixed_tag() -> Seq<char> {
        "Example"@
    }

    /// An absent optional attribute is omitted entirely.
    open spec fn spec_attrs(&self) -> Seq<AttrModel> {
        match self.attr1 {
            Option::Some(v) => seq![AttrModel { key: "attr1"@, value: v@ }],
            Option::None => Seq::<AttrModel>::empty(),
        }
    }

    open spec fn spec_inner(&self) -> Seq<EventModel> {
        Seq::<EventModel>::empty()
    }

    /// Every part of this element serializes without failing.
    open spec fn spec_serialize_total(&self) -> bool {
        true
    }

    fn tag() -> (t: &'static str) {
        "Example"
    }

    fn serialize(&self, serializer: &mut Serializer) -> (r: Result<(), Error>)
        ensures
            r is Ok,
    {
        let ghost q = old(serializer).pending()->Some_0;
        match &self.attr1 {
            Some(v) => {
                let text = <crate::serializer::ValueString as crate::serializer::Value<String>>::serialize_value(v)?;
                serializer.serialize_attribute("attr1", text.as_str())?;
                proof {
                    assert(serializer.pending()->Some_0.attrs =~= q.attrs + self.spec_attrs());
                    assert(serializer.pending()->Some_0 == (crate::events::StartTagModel {
                        tag: q.tag,
                        attrs: q.attrs + self.spec_attrs(),
                    }));
                }
                Ok(())
            },
            None => {
                proof {
                    assert(q.attrs + self.spec_attrs() =~= q.attrs);
                }
                Ok(())
            },
        }
    }
}


/// Two optional child slots that could both claim a `foo` element:
/// the slot declared first always wins, so reordering the declarations
/// changes which field receives the child.
#[derive(Debug, Clone, PartialEq, Eq)]
pub struct Twin {
    pub first: Option<Foo>,
    pub second: Option<Foo>,
}

/// Parse state for [`Twin`].
pub struct TwinState {
    /// The first declared slot, offered every child first.
    pub first: ParseElementOptional<FooState>,
    /// The second declared slot, offered only what the first declined.
    pub second: ParseElementOptional<FooState>,
}

impl Default for TwinState {
    fn default() -> (r: Self)
        ensures
            r.first.element is None,
            r.second.element is None,
    {
        TwinState { first: ParseElementOptional::default(), second: ParseElementOptional::default() }
    }
}

impl FixedElementState for TwinState {
    type Output = Twin;

    open spec fn spec_tag() -> Seq<char> {
        "twin"@
    }

    open spec fn spec_attrs_total() -> bool {
        false
    }

    open spec fn spec_text_total() -> bool {
        false
    }

    open spec fn spec_finish_total() -> bool {
        true
    }

    fn tag() -> (t: &'static str) {
        "twin"
    }

    /// No attributes are declared; any attribute is unexpected.
    fn parse_element_attribute(&mut self, key: &str, value: &str) -> (r: Result<(), Error>)
        ensures
            (r matches Err(e) && e matches Error::UnexpectedAttribute { key: k } && k@ == key@),
            *final(self) == *old(self),
    {
        let _ = value;
        Err(crate::errors::unexpected_attribute(key))
    }

    /// Whitespace is tolerated; any other text is unexpected.
    fn parse_element_inner_text(&mut self, text: String) -> (r: Result<(), Error>)
        ensures
            crate::text::is_blank(text@) <==> r is Ok,
            r matches Err(e) ==> e is UnexpectedText,
            *final(self) == *old(self),
    {
        if !crate::text::is_all_whitespace(text.as_str()) {
            return Err(crate::errors::unexpected_text());
        }
        Ok(())
    }

    /// First-declared-wins: while the first slot is empty, a `foo`
    /// child can only go there; the second slot receives one only once
    /// the first is filled.
    fn parse_element_inner_node(&mut self, start: StartTag, closed: bool, parser: &mut Parser<
        '_,
    >) -> (r: Result<(), Error>)
        ensures
            start@.tag == FooState::spec_tag() && old(self).first.element is None && r is Ok ==> (
            final(self).first.element is Some && final(self).second == old(self).second),
            start@.tag != FooState::spec_tag() ==> r is Err && *final(self) == *old(self),
            start@.tag == FooState::spec_tag() && old(self).first.element is None && closed
                && start@.attrs.len() == 0 ==> r is Ok,
    {
        match self.first.parse_inner_node(start, closed, parser)? {
            InnerParseResult::Success => Ok(()),
            InnerParseResult::Next(start) => {
                match self.second.parse_inner_node(start, closed, parser)? {
                    InnerParseResult::Success => Ok(()),
                    InnerParseResult::Next(start) => {
                        Err(crate::errors::unexpected_element(start.tag.as_str()))
                    },
                }
            },
        }
    }

    fn parse_element_finish(self) -> (r: Result<Twin, Error>)
        ensures
            r matches Ok(t) && t == (Twin {
                first: self.first.element,
                second: self.second.element,
            }),
    {
        let first = self.first.parse_inner_finish()?;
        let second = self.second.parse_inner_finish()?;
        Ok(Twin { first, second })
    }
}

impl crate::parser::Element for Twin {
    type ParseState = TwinState;
}

/// A list element, `<items>`, holding any number of `foo` children.
#[derive(Debug, Clone, PartialEq, Eq)]
pub struct Items {
    pub items: Vec<Foo>,
}

/// Parse state for [`Items`].
pub struct ItemsState {
    /// The repeated `foo` children, in document order.
    pub items: ParseElementList<FooState>,
}

impl Default for ItemsState {
    fn default() -> (r: Self)
        ensures
            r.items.elements@ == Seq::<Foo>::empty(),
    {
        ItemsState { items: ParseElementList::default() }
    }
}

impl FixedElementState for ItemsState {
    type Output = Items;

    open spec fn spec_tag() -> Seq<char> {
        "items"@
    }

    open spec fn spec_attrs_total() -> bool {
        false
    }

    open spec fn spec_text_total() -> bool {
        false
    }

    open spec fn spec_finish_total() -> bool {
        true
    }

    fn tag() -> (t: &'static str) {
        "items"
    }

    fn parse_element_inner_node(&mut self, start: StartTag, closed: bool, parser: &mut Parser<
        '_,
    >) -> (r: Result<(), Error>)
        ensures
            r is Ok && start@.tag == FooState::spec_tag() ==> final(self).items.elements@.len()
                == old(self).items.elements@.len() + 1 && final(self).items.elements@.drop_last()
                == old(self).items.elements@,
            start@.tag != FooState::spec_tag() ==> r is Err && *final(self) == *old(self),
            start@.tag == FooState::spec_tag() && closed && start@.attrs.len() == 0 ==> r is Ok,
    {
        match self.items.parse_inner_node(start, closed, parser)? {
            InnerParseResult::Success => Ok(()),
            InnerParseResult::Next(start) => {
                Err(crate::errors::unexpected_element(start.tag.as_str()))
            },
        }
    }

    /// No attributes are declared; any attribute is unexpected.
    fn parse_element_attribute(&mut self, key: &str, value: &str) -> (r: Result<(), Error>)
        ensures
            (r matches Err(e) && e matches Error::UnexpectedAttribute { key: k } && k@ == key@),
            *final(self) == *old(self),
    {
        let _ = value;
        Err(crate::errors::unexpected_attribute(key))
    }

    /// Whitespace is tolerated; any other text is unexpected.
    fn parse_element_inner_text(&mut self, text: String) -> (r: Result<(), Error>)
        ensures
            crate::text::is_blank(text@) <==> r is Ok,
            r matches Err(e) ==> e is UnexpectedText,
            *final(self) == *old(self),
    {
        if !crate::text::is_all_whitespace(text.as_str()) {
            return Err(crate::errors::unexpected_text());
        }
        Ok(())
    }

    fn parse_element_finish(self) -> (r: Result<Items, Error>)
        ensures
            r matches Ok(v) && v.items == self.items.elements,
    {
        let items = self.items.parse_inner_finish()?;
        Ok(Items { items })
    }
}

impl crate::parser::Element for Items {
    type ParseState = ItemsState;
}

impl crate::serializer::FixedElement for Items {
    open spec fn spec_fixed_tag() -> Seq<char> {
        "items"@
    }

    open spec fn spec_attrs(&self) -> Seq<AttrModel> {
        Seq::<AttrModel>::empty()
    }

    /// One `foo` element per item, in order; no items, no content.
    open spec fn spec_inner(&self) -> Seq<EventModel> {
        <Vec<Foo> as Inner>::spec_events(&self.items)
    }

    /// Every part of this element serializes without failing.
    open spec fn spec_serialize_total(&self) -> bool {
        true
    }

    fn tag() -> (t: &'static str) {
        "items"
    }

    fn serialize(&self, serializer: &mut Serializer) -> (r: Result<(), Error>) {
        let ghost q = old(serializer).pending()->Some_0;
        let r = self.items.serialize_elements(serializer);
        proof {
            if r is Ok {
                if self.spec_inner().len() == 0 {
                    assert(q.attrs + self.spec_attrs() =~= q.attrs);
                    assert(serializer.pending()->Some_0 == (crate::events::StartTagModel {
                        tag: q.tag,
                        attrs: q.attrs + self.spec_attrs(),
                    }));
                } else {
                    assert(seq![
                        EventModel::Start(
                            crate::events::StartTagModel {
                                tag: q.tag,
                                attrs: q.attrs + self.spec_attrs(),
                            },
                        ),
                    ] =~= crate::adapter::serializer::flushed(old(serializer).pending()));
                    assert(serializer.out() =~= old(serializer).out() + seq![
                        EventModel::Start(
                            crate::events::StartTagModel {
                                tag: q.tag,
                                attrs: q.attrs + self.spec_attrs(),
                            },
                        ),
                    ] + self.spec_inner());
                }
            }
        }
        r
    }
}

/// An element whose whole inner aggregate is optional as a unit: the
/// first event the aggregate accepts activates it, and if none ever
/// does, the field stays absent.
#[derive(Debug, Clone, PartialEq, Eq)]
pub struct Outer {
    pub body: Option<DataInner>,
}

/// Parse state for [`Outer`].
pub struct OuterState {
    /// The optional inner aggregate, activated by its first event.
    pub body: ParseInnerOptional<DataInnerState>,
}

impl Default for OuterState {
    fn default() -> (r: Self)
        ensures
            r.body.inner is None,
    {
        OuterState { body: ParseInnerOptional::default() }
    }
}

impl FixedElementState for OuterState {
    type Output = Outer;

    open spec fn spec_tag() -> Seq<char> {
        "outer"@
    }

    open spec fn spec_attrs_total() -> bool {
        false
    }

    open spec fn spec_text_total() -> bool {
        false
    }

    open spec fn spec_finish_total() -> bool {
        false
    }

    fn tag() -> (t: &'static str) {
        "outer"
    }

    fn parse_element_inner_node(&mut self, start: StartTag, closed: bool, parser: &mut Parser<
        '_,
    >) -> (r: Result<(), Error>) {
        match self.body.parse_inner_node(start, closed, parser)? {
            InnerParseResult::Success => Ok(()),
            InnerParseResult::Next(start) => {
                Err(crate::errors::unexpected_element(start.tag.as_str()))
            },
        }
    }

    fn parse_element_inner_text(&mut self, text: String) -> (r: Result<(), Error>) {
        match self.body.parse_inner_text(text)? {
            InnerParseResult::Success => Ok(()),
            InnerParseResult::Next(t) => {
                if crate::text::is_all_whitespace(t.as_str()) {
                    Ok(())
                } else {
                    Err(crate::errors::unexpected_text())
                }
            },
        }
    }

    /// No attributes are declared; any attribute is unexpected.
    fn parse_element_attribute(&mut self, key: &str, value: &str) -> (r: Result<(), Error>)
        ensures
            (r matches Err(e) && e matches Error::UnexpectedAttribute { key: k } && k@ == key@),
            *final(self) == *old(self),
    {
        let _ = value;
        Err(crate::errors::unexpected_attribute(key))
    }

    /// A never-activated aggregate finishes as `None`.
    fn parse_element_finish(self) -> (r: Result<Outer, Error>)
        ensures
            self.body.inner is None ==> (r matches Ok(o) && o.body is None),
    {
        let body = self.body.parse_inner_finish()?;
        Ok(Outer { body })
    }
}

impl crate::parser::Element for Outer {
    type ParseState = OuterState;
}

/// A list element, `<gallery>`, holding any number of `Example`
/// children; their attributes make the document order observable.
#[derive(Debug, Clone, PartialEq, Eq)]
pub struct Gallery {
    pub entries: Vec<Example>,
}

/// Parse state for [`Gallery`].
pub struct GalleryState {
    /// The repeated `Example` children, in document order.
    pub entries: ParseElementList<ExampleState>,
}

impl Default for GalleryState {
    fn default() -> (r: Self)
        ensures
            r.entries.elements@ == Seq::<Example>::empty(),
    {
        GalleryState { entries: ParseElementList::default() }
    }
}

impl FixedElementState for GalleryState {
    type Output = Gallery;

    open spec fn spec_tag() -> Seq<char> {
        "gallery"@
    }

    open spec fn spec_attrs_total() -> bool {
        false
    }

    open spec fn spec_text_total() -> bool {
        false
    }

    open spec fn spec_finish_total() -> bool {
        true
    }

    fn tag() -> (t: &'static str) {
        "gallery"
    }

    fn parse_element_inner_node(&mut self, start: StartTag, closed: bool, parser: &mut Parser<
        '_,
    >) -> (r: Result<(), Error>)
        ensures
            r is Ok && start@.tag == ExampleState::spec_tag() ==> final(self).entries.elements@.len() == old(self).entries.elements@.len() + 1 && final(self).entries.elements@.drop_last() == old(self).entries.elements@,
            start@.tag != ExampleState::spec_tag() ==> r is Err && *final(self) == *old(self),
    {
        match self.entries.parse_inner_node(start, closed, parser)? {
            InnerParseResult::Success => Ok(()),
            InnerParseResult::Next(start) => {
                Err(crate::errors::unexpected_element(start.tag.as_str()))
            },
        }
    }

    /// No attributes are declared; any attribute is unexpected.
    fn parse_element_attribute(&mut self, key: &str, value: &str) -> (r: Result<(), Error>)
        ensures
            (r matches Err(e) && e matches Error::UnexpectedAttribute { key: k } && k@ == key@),
            *final(self) == *old(self),
    {
        let _ = value;
        Err(crate::errors::unexpected_attribute(key))
    }

    /// Whitespace is tolerated; any other text is unexpected.
    fn parse_element_inner_text(&mut self, text: String) -> (r: Result<(), Error>)
        ensures
            crate::text::is_blank(text@) <==> r is Ok,
            r matches Err(e) ==> e is UnexpectedText,
            *final(self) == *old(self),
    {
        if !crate::text::is_all_whitespace(text.as_str()) {
            return Err(crate::errors::unexpected_text());
        }
        Ok(())
    }

    fn parse_element_finish(self) -> (r: Result<Gallery, Error>)
        ensures
            r matches Ok(v) && v.entries == self.entries.elements,
    {
        let entries = self.entries.parse_inner_finish()?;
        Ok(Gallery { entries })
    }
}

impl crate::parser::Element for Gallery {
    type ParseState = GalleryState;
}

impl crate::serializer::FixedElement for Gallery {
    open spec fn spec_fixed_tag() -> Seq<char> {
        "gallery"@
    }

    open spec fn spec_attrs(&self) -> Seq<AttrModel> {
        Seq::<AttrModel>::empty()
    }

    /// One `Example` element per entry, in order.
    open spec fn spec_inner(&self) -> Seq<EventModel> {
        <Vec<Example> as Inner>::spec_events(&self.entries)
    }

    /// Every part of this element serializes without failing.
    open spec fn spec_serialize_total(&self) -> bool {
        true
    }

    fn tag() -> (t: &'static str) {
        "gallery"
    }

    fn serialize(&self, serializer: &mut Serializer) -> (r: Result<(), Error>) {
        let ghost q = old(serializer).pending()->Some_0;
        let r = self.entries.serialize_elements(serializer);
        proof {
            if r is Ok {
                if self.spec_inner().len() == 0 {
                    assert(q.attrs + self.spec_attrs() =~= q.attrs);
                    assert(serializer.pending()->Some_0 == (crate::events::StartTagModel {
                        tag: q.tag,
                        attrs: q.attrs + self.spec_attrs(),
                    }));
                } else {
                    assert(seq![
                        EventModel::Start(
                            crate::events::StartTagModel {
                                tag: q.tag,
                                attrs: q.attrs + self.spec_attrs(),
                            },
                        ),
                    ] =~= crate::adapter::serializer::flushed(old(serializer).pending()));
                    assert(serializer.out() =~= old(serializer).out() + seq![
                        EventModel::Start(
                            crate::events::StartTagModel {
                                tag: q.tag,
                                attrs: q.attrs + self.spec_attrs(),
                            },
                        ),
                    ] + self.spec_inner());
                }
            }
        }
        r
    }
}

/// Serializing a list of `foo` markers emits exactly one element per
/// item: the content of an [`Items`] element holds as many events as
/// the list has items, each a single self-closing `foo`.
pub proof fn lemma_items_event_count(v: Items)
    ensures
        <Items as crate::serializer::FixedElement>::spec_inner(&v).len() == v.items@.len(),
{
    lemma_foo_list_event_count(v.items@);
}

/// Each `foo` in a list contributes exactly one event.
proof fn lemma_foo_list_event_count(s: Seq<Foo>)
    ensures
        crate::serializer::events_of_list(s).len() == s.len(),
    decreases s.len(),
{
    if s.len() > 0 {
        lemma_foo_list_event_count(s.drop_last());
        assert(<Foo as Inner>::spec_events(&s.last()).len() == 1);
    }
}

/// An element with one required `foo` child, `<pair><foo/></pair>`:
/// absence of the child is a "missing element" error naming its tag.
#[derive(Debug, Clone, PartialEq, Eq)]
pub struct Pair {
    pub foo: Foo,
}

/// Parse state for [`Pair`].
pub struct PairState {
    /// The required `foo` child.
    pub foo: ParseElementOnce<FooState>,
}

impl Default for PairState {
    fn default() -> (r: Self)
        ensures
            r.foo.element is None,
    {
        PairState { foo: ParseElementOnce::default() }
    }
}

impl FixedElementState for PairState {
    type Output = Pair;

    open spec fn spec_tag() -> Seq<char> {
        "pair"@
    }

    open spec fn spec_attrs_total() -> bool {
        false
    }

    open spec fn spec_text_total() -> bool {
        false
    }

    open spec fn spec_finish_total() -> bool {
        false
    }

    fn tag() -> (t: &'static str) {
        "pair"
    }

    fn parse_element_inner_node(&mut self, start: StartTag, closed: bool, parser: &mut Parser<
        '_,
    >) -> (r: Result<(), Error>)
        ensures
            start@.tag == FooState::spec_tag() && old(self).foo.element is None && closed
                && start@.attrs.len() == 0 ==> r is Ok && final(self).foo.element is Some,
            start@.tag != FooState::spec_tag() ==> r is Err && *final(self) == *old(self),
    {
        match self.foo.parse_inner_node(start, closed, parser)? {
            InnerParseResult::Success => Ok(()),
            InnerParseResult::Next(start) => {
                Err(crate::errors::unexpected_element(start.tag.as_str()))
            },
        }
    }

    /// No attributes are declared; any attribute is unexpected.
    fn parse_element_attribute(&mut self, key: &str, value: &str) -> (r: Result<(), Error>)
        ensures
            (r matches Err(e) && e matches Error::UnexpectedAttribute { key: k } && k@ == key@),
            *final(self) == *old(self),
    {
        let _ = value;
        Err(crate::errors::unexpected_attribute(key))
    }

    /// Whitespace is tolerated; any other text is unexpected.
    fn parse_element_inner_text(&mut self, text: String) -> (r: Result<(), Error>)
        ensures
            crate::text::is_blank(text@) <==> r is Ok,
            r matches Err(e) ==> e is UnexpectedText,
            *final(self) == *old(self),
    {
        if !crate::text::is_all_whitespace(text.as_str()) {
            return Err(crate::errors::unexpected_text());
        }
        Ok(())
    }

    /// The required child must have appeared.
    fn parse_element_finish(self) -> (r: Result<Pair, Error>)
        ensures
            self.foo.element is Some ==> (r matches Ok(p) && p.foo == self.foo.element->0),
            self.foo.element is None ==> (r matches Err(e) && e matches Error::MissingElement {
                tag: t,
            } && t@ == FooState::spec_tag()),
    {
        let foo = self.foo.parse_inner_finish()?;
        Ok(Pair { foo })
    }
}

impl crate::parser::Element for Pair {
    type ParseState = PairState;
}

} // verus!
