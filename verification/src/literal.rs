//! String literals as the token library writes them.

use vstd::prelude::*;

verus! {

/// The source text of the string literal that stands for `s`: `s` between
/// double quotes, with the characters that cannot stand there escaped.
pub uninterp spec fn string_literal_text(s: Seq<char>) -> Seq<char>;

/// Calls `proc_macro2::Literal::string` and takes the literal's text by its
/// `Display` impl. The crate is built without its `proc-macro` feature, so
/// the literal is written by the crate's own writer: a double quote, the
/// string with its characters escaped one by one, a double quote. That text
/// is a function of the string alone; the contract gives it a name and claims
/// nothing else of it.
#[verifier::external_body]
pub(crate) fn string_literal(s: &str) -> (text: String)
    ensures
        text@ == string_literal_text(s@),
{
    proc_macro2::Literal::string(s).to_string()
}

} // verus!
