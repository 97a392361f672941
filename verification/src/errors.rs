//! The error type of the library and helper functions to construct the
//! common error values.
//!
//! Every operation of the parse and serialize machinery reports failure
//! through [`Error`]; the first error aborts the whole parse or serialize
//! run and is handed to the caller unchanged.

use vstd::prelude::*;

verus! {

/// All failures that parsing or serializing can report.
#[derive(Debug, Clone)]
pub enum Error {
    /// Input ended although more data was required; `msg` says what was
    /// being read.
    UnexpectedEof { msg: String },
    /// A closing tag appeared where none was open.
    UnexpectedEnd,
    /// An XML declaration (`<?xml ...?>`) appeared after the root element
    /// or inside an element.
    UnexpectedDecl,
    /// A `<!DOCTYPE ...>` appeared after the root element or inside an
    /// element.
    UnexpectedDocType,
    /// A processing instruction (`<?...?>`) was found; those are not
    /// supported.
    UnexpectedPi,
    /// Non-whitespace text appeared where no field accepts text.
    UnexpectedText,
    /// A child element with the given tag was not claimed by any field.
    UnexpectedElement { tag: String },
    /// An attribute with the given key was not claimed by any field.
    UnexpectedAttribute { key: String },
    /// A claimed child element was not read to its closing tag.  Kept
    /// for adapters that track subtree consumption at run time; the
    /// drivers in this crate prove they consume every claimed child
    /// through its closing tag, so they never raise it.
    InnerElementNotParsed { tag: String },
    /// A required child element with the given tag never appeared.
    MissingElement { tag: String },
    /// A required child element never appeared and no fixed tag was
    /// expected.
    MissingUnknownElement,
    /// A required attribute with the given key never appeared.
    MissingAttribute { key: String },
    /// A text value could not be converted to the field's type.
    InvalidValue { msg: String },
    /// The underlying XML engine reported a failure.
    Xml { msg: String },
}

impl Error {
    /// A short human-readable description of the error: the kind's
    /// wording, followed by the offending key, tag or detail.
    pub fn message(&self) -> (r: String)
        ensures
            (match self {
                Error::UnexpectedEof { msg } => r@ == "unexpected eof: "@ + msg@,
                Error::UnexpectedEnd => r@ == "Unexpected end tag"@,
                Error::UnexpectedDecl => r@ == "Unexpected decl <?xml ... ?>"@,
                Error::UnexpectedDocType => r@ == "Unexpected <!DOCTYPE ...>"@,
                Error::UnexpectedPi => r@ == "Unexpected processing instructions <?...?>"@,
                Error::UnexpectedText => r@ == "Unexpected (non-whitespace) text/CDATA"@,
                Error::UnexpectedElement { tag } => r@ == "Unexpected element: "@ + tag@,
                Error::UnexpectedAttribute { key } => r@ == "Unexpected attribute: "@ + key@,
                Error::InnerElementNotParsed { tag } => r@ == "Inner element \""@ + tag@
                    + "\" wasn't fully parsed"@,
                Error::MissingElement { tag } => r@ == "Missing element \""@ + tag@ + "\""@,
                Error::MissingUnknownElement => r@ == "Missing element"@,
                Error::MissingAttribute { key } => r@ == "Missing attribute \""@ + key@ + "\""@,
                Error::InvalidValue { msg } => r@ == "Invalid value: "@ + msg@,
                Error::Xml { msg } => r@ == "XML error: "@ + msg@,
            }),
    {
        match self {
            Error::UnexpectedEof { msg } => String::from_str("unexpected eof: ").concat(
                msg.as_str(),
            ),
            Error::UnexpectedEnd => String::from_str("Unexpected end tag"),
            Error::UnexpectedDecl => String::from_str("Unexpected decl <?xml ... ?>"),
            Error::UnexpectedDocType => String::from_str("Unexpected <!DOCTYPE ...>"),
            Error::UnexpectedPi => String::from_str("Unexpected processing instructions <?...?>"),
            Error::UnexpectedText => String::from_str("Unexpected (non-whitespace) text/CDATA"),
            Error::UnexpectedElement { tag } => String::from_str("Unexpected element: ").concat(
                tag.as_str(),
            ),
            Error::UnexpectedAttribute { key } => String::from_str(
                "Unexpected attribute: ",
            ).concat(key.as_str()),
            Error::InnerElementNotParsed { tag } => String::from_str("Inner element \"").concat(
                tag.as_str(),
            ).concat("\" wasn't fully parsed"),
            Error::MissingElement { tag } => String::from_str("Missing element \"").concat(
                tag.as_str(),
            ).concat("\""),
            Error::MissingUnknownElement => String::from_str("Missing element"),
            Error::MissingAttribute { key } => String::from_str("Missing attribute \"").concat(
                key.as_str(),
            ).concat("\""),
            Error::InvalidValue { msg } => String::from_str("Invalid value: ").concat(
                msg.as_str(),
            ),
            Error::Xml { msg } => String::from_str("XML error: ").concat(msg.as_str()),
        }
    }
}

/// Input ended too early; `msg` says what was still expected.
pub fn unexpected_eof(msg: &str) -> (e: Error)
    ensures
        e matches Error::UnexpectedEof { msg: m } && m@ == msg@,
{
    Error::UnexpectedEof { msg: msg.to_owned() }
}

/// A closing tag appeared where none was open.
pub fn unexpected_end() -> (e: Error)
    ensures
        e is UnexpectedEnd,
{
    Error::UnexpectedEnd
}

/// An XML declaration appeared in an invalid position.
pub fn unexpected_decl() -> (e: Error)
    ensures
        e is UnexpectedDecl,
{
    Error::UnexpectedDecl
}

/// A doctype appeared in an invalid position.
pub fn unexpected_doctype() -> (e: Error)
    ensures
        e is UnexpectedDocType,
{
    Error::UnexpectedDocType
}

/// A processing instruction was found.
pub fn unexpected_pi() -> (e: Error)
    ensures
        e is UnexpectedPi,
{
    Error::UnexpectedPi
}

/// Non-whitespace text appeared where none is accepted.
pub fn unexpected_text() -> (e: Error)
    ensures
        e is UnexpectedText,
{
    Error::UnexpectedText
}

/// A child element with tag `tag` was not claimed by any field.
pub fn unexpected_element(tag: &str) -> (e: Error)
    ensures
        e matches Error::UnexpectedElement { tag: t } && t@ == tag@,
{
    Error::UnexpectedElement { tag: tag.to_owned() }
}

/// An attribute with key `key` was not claimed by any field.
pub fn unexpected_attribute(key: &str) -> (e: Error)
    ensures
        e matches Error::UnexpectedAttribute { key: k } && k@ == key@,
{
    Error::UnexpectedAttribute { key: key.to_owned() }
}

/// A claimed child element was not read to its closing tag.
pub fn inner_element_not_parsed(tag: &str) -> (e: Error)
    ensures
        e matches Error::InnerElementNotParsed { tag: t } && t@ == tag@,
{
    Error::InnerElementNotParsed { tag: tag.to_owned() }
}

/// A required child element with tag `tag` never appeared.
pub fn missing_element(tag: &str) -> (e: Error)
    ensures
        e matches Error::MissingElement { tag: t } && t@ == tag@,
{
    Error::MissingElement { tag: tag.to_owned() }
}

/// A required child element never appeared; no fixed tag was expected.
pub fn missing_unknown_element() -> (e: Error)
    ensures
        e is MissingUnknownElement,
{
    Error::MissingUnknownElement
}

/// A required attribute with key `key` never appeared.
pub fn missing_attribute(key: &str) -> (e: Error)
    ensures
        e matches Error::MissingAttribute { key: k } && k@ == key@,
{
    Error::MissingAttribute { key: key.to_owned() }
}

/// A text value could not be converted to the field's type.
pub fn invalid_value(msg: &str) -> (e: Error)
    ensures
        e matches Error::InvalidValue { msg: m } && m@ == msg@,
{
    Error::InvalidValue { msg: msg.to_owned() }
}

} // verus!
