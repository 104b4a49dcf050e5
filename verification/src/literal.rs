//! String literals in source text, as the `syn` crate reads them.

use vstd::prelude::*;
use vstd::string::StrSliceExecFns;

verus! {

/// Whether the text opens as a string literal does: with the quote of a
/// plain string or with the `r` of a raw one. A text that opens otherwise
/// is no string literal, whatever follows.
pub open spec fn opens_string_literal(source: Seq<char>) -> bool {
    source.len() > 0 && (source[0] == '"' || source[0] == 'r')
}

/// Whether the text opens as a string literal does.
pub fn starts_string_literal(source: &str) -> (yes: bool)
    ensures
        yes == opens_string_literal(source@),
{
    if source.unicode_len() == 0 {
        false
    } else {
        let first = source.get_char(0);
        first == '"' || first == 'r'
    }
}

/// Reads `source` with `syn::parse_str::<syn::LitStr>` and, where that
/// succeeds, takes the literal's content with `syn::LitStr::value`.
///
/// Taken on trust: that the call returns for every text that opens with a
/// quote or an `r`. Of such a text the first token is a string literal, an
/// identifier or a lexing failure, and `syn` reads each of these without
/// giving up; a literal token of another kind, which `syn` may refuse to
/// read at all, cannot stand first. Nothing is claimed of the outcome: which
/// texts are string literals, and what their values are, is the lexer's
/// business.
#[verifier::external_body]
pub(crate) fn string_literal_value(source: &str) -> (value: Option<String>)
    requires
        opens_string_literal(source@),
{
    match syn::parse_str::<syn::LitStr>(source) {
        Ok(literal) => Some(literal.value()),
        Err(_) => None,
    }
}

/// The value of the string literal that the text is, or nothing where the
/// text is no string literal. A text that does not open as a string literal
/// is not handed to the lexer.
pub fn read_string_literal(source: &str) -> (value: Option<String>)
    ensures
        value is Some ==> opens_string_literal(source@),
{
    if starts_string_literal(source) {
        string_literal_value(source)
    } else {
        None
    }
}

} // verus!
