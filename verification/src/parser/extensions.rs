//! Convenience methods on every element parser.

use vstd::prelude::*;

verus! {

use crate::errors::Error;
use crate::events::StartTag;
use crate::parser::state::{ElementParser, ElementState};

/// Extends [`ElementParser`] with convenience methods.
pub trait ElementParserExt: ElementParser {
    /// Full parsing of one element whose opening tag is `start`: fails
    /// hard if the state does not accept the tag.  A convenience for
    /// adapter writers; the document driver performs these same steps
    /// inline so that its contract can track event consumption, which
    /// this generic signature cannot speak about.
    fn parse_element<E: ElementState>(&mut self, start: StartTag, closed: bool) -> (r: Result<
        E::Output,
        Error,
    >)
        ensures
            r is Ok ==> final(self).source_len() <= old(self).source_len(),
            r is Ok ==> E::spec_accepts(start@.tag),
            !E::spec_accepts(start@.tag) ==> final(self).source_len() == old(self).source_len(),
            !E::spec_accepts(start@.tag) ==> (r matches Err(e)
                && e matches Error::UnexpectedElement { tag: t } && t@ == start@.tag),
    {
        let mut state = match E::parse_element_start(start.tag.as_str()) {
            Some(s) => s,
            None => {
                return Err(crate::errors::unexpected_element(start.tag.as_str()));
            },
        };
        self.parse_element_state(&start, closed, &mut state)?;
        state.parse_element_finish()
    }
}

impl<P: ElementParser> ElementParserExt for P {

}

} // verus!
