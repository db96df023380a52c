//! Questions of Rust syntax, which `syn` answers.
//!
//! The expanders never read token text themselves. Whether a text is a path,
//! a closure, or a string literal is for the parser to say; what it says is
//! named here, and the expanders' contracts speak of those names.

use vstd::prelude::*;

verus! {

/// Whether `syn` reads the whole of `tokens` as a path.
pub uninterp spec fn is_path(tokens: Seq<char>) -> bool;

/// The number of parameters of the closure that `syn` reads `tokens` as, or
/// `None` where it does not read the whole of `tokens` as a closure.
pub uninterp spec fn closure_parameters(tokens: Seq<char>) -> Option<usize>;

/// The value of the string literal that `syn` reads `tokens` as, or `None`
/// where it does not read the whole of `tokens` as one string literal.
pub uninterp spec fn string_literal_value(tokens: Seq<char>) -> Option<Seq<char>>;

/// Trusted. Calls `syn::parse_str::<syn::Path>`, which lexes the text and
/// parses a path from the tokens, failing if any token is left over. The
/// result says whether the parse succeeded.
#[verifier::external_body]
pub(crate) fn parse_path(tokens: &str) -> (ok: bool)
    ensures
        ok == is_path(tokens@),
{
    syn::parse_str::<syn::Path>(tokens).is_ok()
}

/// Trusted. Calls `syn::parse_str::<syn::ExprClosure>`, which lexes the text
/// and parses a closure expression from the tokens, failing if any token is
/// left over. The result is the length of the closure's `inputs`, or `None`
/// where the parse failed.
#[verifier::external_body]
pub(crate) fn parse_closure(tokens: &str) -> (parameters: Option<usize>)
    ensures
        parameters == closure_parameters(tokens@),
{
    match syn::parse_str::<syn::ExprClosure>(tokens) {
        Ok(closure) => Some(closure.inputs.len()),
        Err(_) => None,
    }
}

/// Trusted. Calls `syn::parse_str::<syn::LitStr>`, which lexes the text and
/// parses one string literal from the tokens, failing if any token is left
/// over. The result is the literal's `value()`, the string it denotes with
/// escapes resolved, or `None` where the parse failed.
#[verifier::external_body]
pub(crate) fn parse_string_literal(tokens: &str) -> (value: Option<String>)
    ensures
        match value {
            Some(s) => string_literal_value(tokens@) == Some(s@),
            None => string_literal_value(tokens@) is None,
        },
{
    match syn::parse_str::<syn::LitStr>(tokens) {
        Ok(literal) => Some(literal.value()),
        Err(_) => None,
    }
}

} // verus!
