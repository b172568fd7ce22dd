//! The two points where the host language's own parser is consulted: raw
//! attribute argument text is re-parsed as comma-separated expressions and
//! re-rendered, and the controlling attribute's argument is read as one
//! string literal. Both outcomes are pure functions of the input text, named
//! here and relied on without proof.

use quote::ToTokens;
use syn::parse::Parser;
use vstd::prelude::*;

verus! {

/// What parsing a raw argument text as comma-separated expressions and
/// re-rendering it yields: `None` when the text does not parse that way,
/// else the normalized rendering.
pub uninterp spec fn expr_list_rendering(s: Seq<char>) -> Option<Seq<char>>;

/// What reading a raw argument text as exactly one string literal yields:
/// `None` when the text is not one string literal, else the string it
/// carries.
pub uninterp spec fn lit_str_value(s: Seq<char>) -> Option<Seq<char>>;

/// Relies on syn's `Punctuated::<Expr, Comma>::parse_terminated` and quote's
/// `ToTokens`: parses `src` as comma-separated expressions and re-renders
/// them; the outcome depends on `src` alone.
#[verifier::external_body]
pub(crate) fn render_expr_list(src: &str) -> (r: Option<String>)
    ensures
        match r {
            Option::Some(t) => expr_list_rendering(src@) == Option::Some(t@),
            Option::None => expr_list_rendering(src@) is None,
        },
{
    let parse = syn::punctuated::Punctuated::<syn::Expr, syn::token::Comma>::parse_terminated;
    match parse.parse_str(src) {
        Ok(exprs) => Some(exprs.to_token_stream().to_string()),
        Err(_) => None,
    }
}

/// Relies on syn's `parse_str::<LitStr>` and `LitStr::value`: reads `src` as
/// exactly one string literal; the outcome depends on `src` alone.
#[verifier::external_body]
pub(crate) fn parse_lit_str(src: &str) -> (r: Option<String>)
    ensures
        match r {
            Option::Some(t) => lit_str_value(src@) == Option::Some(t@),
            Option::None => lit_str_value(src@) is None,
        },
{
    match syn::parse_str::<syn::LitStr>(src) {
        Ok(lit) => Some(lit.value()),
        Err(_) => None,
    }
}

} // verus!
