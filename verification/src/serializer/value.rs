//! Codecs turning typed field values into attribute text.

use vstd::prelude::*;

verus! {

use crate::errors::Error;
use crate::text::Textual;

/// Strategy to render a `T` as attribute text.
///
/// Marker types implement this so that the same `T` can be rendered
/// differently depending on the marker chosen for the field.
pub trait Value<T> {
    /// Render a value as text.
    fn serialize_value(data: &T) -> (r: Result<String, Error>);
}

/// The default codec: renders through the type's canonical textual
/// representation — any type with a [`Textual`] form, such as numbers
/// and booleans.
pub struct ValueDefault;

impl<T: Textual> Value<T> for ValueDefault {
    fn serialize_value(data: &T) -> (r: Result<String, Error>)
        ensures
            r matches Ok(s) && s@ == T::spec_format(*data),
    {
        Ok(data.format_text())
    }
}

/// The raw string codec: hands the text on unmodified.
pub struct ValueString;

impl Value<String> for ValueString {
    fn serialize_value(data: &String) -> (r: Result<String, Error>)
        ensures
            r matches Ok(s) && s@ == data@,
    {
        Ok(data.as_str().to_owned())
    }
}

} // verus!
