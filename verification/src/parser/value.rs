//! Codecs turning attribute text into typed field values.
//!
//! Each attribute field is bound statically to exactly one codec:
//! [`ValueDefault`] converts through the type's canonical textual
//! form, [`ValueString`] takes the text as it stands.

use vstd::prelude::*;

verus! {

use crate::errors::Error;
use crate::text::Textual;

/// Strategy to parse an attribute value or text into a `T`.
///
/// Marker types implement this so that the same `T` can be parsed
/// differently depending on the marker chosen for the field; the two
/// spec functions say which texts the codec accepts and which value a
/// text denotes.
pub trait Value<T> {
    /// Whether the codec accepts this text.
    spec fn spec_accepts_text(s: Seq<char>) -> bool;

    /// Whether `v` is the value this text denotes.
    spec fn spec_value_eq(s: Seq<char>, v: T) -> bool;

    /// Parse text into a value: `Ok` holds the denoted value exactly
    /// when the codec accepts the text, and a rejected text is an
    /// invalid-value error.
    fn parse_value(text: &str) -> (r: Result<T, Error>)
        ensures
            (match r {
                Ok(v) => Self::spec_accepts_text(text@) && Self::spec_value_eq(text@, v),
                Err(e) => e is InvalidValue && !Self::spec_accepts_text(text@),
            }),
    ;
}

/// The default codec: converts through the type's canonical textual
/// representation — any type with a [`Textual`] form, such as numbers
/// and booleans.
pub struct ValueDefault;

impl<T: Textual> Value<T> for ValueDefault {
    open spec fn spec_accepts_text(s: Seq<char>) -> bool {
        T::spec_parse(s) is Some
    }

    open spec fn spec_value_eq(s: Seq<char>, v: T) -> bool {
        T::spec_parse(s) == Some(v)
    }

    fn parse_value(text: &str) -> (r: Result<T, Error>) {
        T::parse_text(text)
    }
}

/// The raw string codec: takes ownership of the text unmodified;
/// every text is accepted.
pub struct ValueString;

impl Value<String> for ValueString {
    open spec fn spec_accepts_text(s: Seq<char>) -> bool {
        true
    }

    open spec fn spec_value_eq(s: Seq<char>, v: String) -> bool {
        v@ == s
    }

    fn parse_value(text: &str) -> (r: Result<String, Error>) {
        Ok(text.to_owned())
    }
}

} // verus!
