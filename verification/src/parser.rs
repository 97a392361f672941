//! Traits and helper structs to parse XML.
//!
//! Parsing a data type goes through an intermediate "state" type
//! (implementing [`FixedElementState`] or [`ElementState`]) which works
//! like a builder: it receives the parts of the element incrementally —
//! attributes, text, child elements — until it can build the result.
//!
//! A type standing for several sibling elements has a state
//! implementing [`InnerState`]; the default state for a type is linked
//! by [`Element`] and [`Inner`].  If `E` implements `Element`, then
//! `E`, `Option<E>` and `Vec<E>` implement `Inner`.

mod state;
mod default;
mod extensions;
mod fixed_element;
pub mod ignore;
mod inner;
mod value;

pub use self::state::{ElementParser, ElementState};
pub use self::default::{Element, ElementDefaultParseState, Inner, InnerDefaultParseState};
pub use self::extensions::ElementParserExt;
pub use self::fixed_element::FixedElementState;
pub use self::ignore::{skip_element, IgnoreElement};
pub use self::inner::{
    InnerParseResult, InnerState, ParseElementList, ParseElementOnce, ParseElementOptional,
    ParseInnerOptional,
};
pub use self::value::{Value, ValueDefault, ValueString};
