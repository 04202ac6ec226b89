//! Identifiers, as `syn` reads them.

use vstd::prelude::*;

verus! {

/// What `syn::parse_str::<syn::Ident>` makes of a text: the identifier's own
/// text (`Ident::to_string`) where it accepts the text, `None` where it
/// refuses it.
pub uninterp spec fn parsed_ident(text: Seq<char>) -> Option<Seq<char>>;

/// Parses `text` as one identifier with `syn::parse_str::<syn::Ident>` and
/// hands back the identifier's text, or `None` where `syn` gives an error.
///
/// Not proved, but taken from `syn` and `proc-macro2` as they are written:
/// that the outcome is [`parsed_ident`] of the text, that is, that it
/// depends on the text alone; and that an identifier's text is not empty.
/// `syn` is built without the `proc-macro` feature, so the text is always
/// read by `proc-macro2`'s own lexer. That lexer calls itself once for each
/// bracket that is open, so a text with many thousands of brackets, one
/// inside the other, can use up the stack.
#[verifier::external_body]
pub(crate) fn parse_ident(text: &str) -> (parsed: Option<String>)
    ensures
        match parsed {
            Some(name) => parsed_ident(text@) == Some(name@) && name@.len() > 0,
            None => parsed_ident(text@) is None,
        },
{
    match syn::parse_str::<syn::Ident>(text) {
        Ok(ident) => Some(ident.to_string()),
        Err(_) => None,
    }
}

} // verus!
