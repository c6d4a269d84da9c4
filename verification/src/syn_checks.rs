//! Validity checks of synthesized token text, answered by the syn parser.
//!
//! Synthesis must not emit text that fails to parse; these checks let the
//! library state exactly on which generated texts it reports a templating
//! defect. The crate depends on syn and proc-macro2 with their `proc-macro`
//! feature switched off, so the compiler's lexer bridge is compiled out and
//! every parse here runs proc-macro2's own fallback lexer: the outcome is a
//! function of the text alone, in every thread and in every process, and
//! each outcome can soundly be given a name that the contracts speak of.

use vstd::prelude::*;

verus! {

/// Whether syn parses `s` as a block (a brace-delimited body).
pub uninterp spec fn parses_as_block(s: Seq<char>) -> bool;

/// Relies on syn::parse_str::<syn::Block>, lexed by proc-macro2's fallback
/// lexer (the bridge is compiled out): whether it returns Ok depends on the
/// text alone.
#[verifier::external_body]
pub(crate) fn parse_block_text(s: &str) -> (r: bool)
    ensures
        r == parses_as_block(s@),
{
    syn::parse_str::<syn::Block>(s).is_ok()
}

/// Whether syn parses `s` as one function input (a receiver or a typed
/// parameter).
pub uninterp spec fn parses_as_fn_arg(s: Seq<char>) -> bool;

/// Relies on syn::parse_str::<syn::FnArg>, lexed by proc-macro2's fallback
/// lexer (the bridge is compiled out): whether it returns Ok depends on the
/// text alone.
#[verifier::external_body]
pub(crate) fn parse_fn_arg_text(s: &str) -> (r: bool)
    ensures
        r == parses_as_fn_arg(s@),
{
    syn::parse_str::<syn::FnArg>(s).is_ok()
}

/// How many outer attributes syn parses out of `s`, or no answer where the
/// text does not parse as outer attributes at all.
pub uninterp spec fn parsed_outer_attr_count(s: Seq<char>) -> Option<usize>;

/// Relies on syn::Attribute::parse_outer through syn::parse::Parser, lexed
/// by proc-macro2's fallback lexer (the bridge is compiled out): the parse
/// outcome and the number of attributes depend on the text alone.
#[verifier::external_body]
pub(crate) fn parse_outer_attr_count(s: &str) -> (r: Option<usize>)
    ensures
        r == parsed_outer_attr_count(s@),
{
    match syn::parse::Parser::parse_str(syn::Attribute::parse_outer, s) {
        Ok(attrs) => Some(attrs.len()),
        Err(_) => None,
    }
}

} // verus!
