//! The outside calls of the synthesis layer: identifier casing and the
//! parsing of annotation payloads.

use vstd::prelude::*;

verus! {

/// The Pascal-cased form of an identifier, as convert_case computes it.
pub uninterp spec fn pascal_of(s: Seq<char>) -> Seq<char>;

/// Whether a payload text parses as a type, and its token-normalized form
/// when it does, as syn and quote compute them over proc-macro2's fallback
/// engine — the one engine the parsing wrappers ever let run.
pub uninterp spec fn parsed_type_text(s: Seq<char>) -> Option<Seq<char>>;

/// Whether a payload text parses as an expression, and its token-normalized
/// form when it does, as syn and quote compute them over proc-macro2's
/// fallback engine — the one engine the parsing wrappers ever let run.
pub uninterp spec fn parsed_expr_text(s: Seq<char>) -> Option<Seq<char>>;

/// Relies on convert_case's `Casing::to_case` with the Pascal case: the
/// result depends on the input characters alone.
#[verifier::external_body]
pub fn to_pascal(s: &str) -> (r: String)
    ensures
        r@ == pascal_of(s@),
{
    convert_case::Casing::to_case(&s, convert_case::Case::Pascal)
}

/// Relies on syn's `parse_str` for `syn::Type` and on quote's `ToTokens`,
/// with proc-macro2 pinned beforehand to its fallback engine
/// (`proc_macro2::fallback::force`): under that engine the lexer and the
/// rendering are pure Rust over the characters, so whether the text parses,
/// and its rendering, depend on the text alone — on every thread and in
/// every process, a macro host included.  The error text is syn's own and
/// is promised nothing.
#[verifier::external_body]
pub fn parse_type_text(s: &str) -> (r: Result<String, String>)
    ensures
        r is Ok <==> parsed_type_text(s@) is Some,
        r matches Ok(t) ==> parsed_type_text(s@) == Some(t@),
{
    proc_macro2::fallback::force();
    match syn::parse_str::<syn::Type>(s) {
        Ok(t) => Ok(quote::ToTokens::to_token_stream(&t).to_string()),
        Err(e) => Err(e.to_string()),
    }
}

/// Relies on syn's `parse_str` for `syn::Expr` and on quote's `ToTokens`,
/// with proc-macro2 pinned beforehand to its fallback engine
/// (`proc_macro2::fallback::force`): under that engine the lexer and the
/// rendering are pure Rust over the characters, so whether the text parses,
/// and its rendering, depend on the text alone — on every thread and in
/// every process, a macro host included.  The error text is syn's own and
/// is promised nothing.
#[verifier::external_body]
pub fn parse_expr_text(s: &str) -> (r: Result<String, String>)
    ensures
        r is Ok <==> parsed_expr_text(s@) is Some,
        r matches Ok(t) ==> parsed_expr_text(s@) == Some(t@),
{
    proc_macro2::fallback::force();
    match syn::parse_str::<syn::Expr>(s) {
        Ok(t) => Ok(quote::ToTokens::to_token_stream(&t).to_string()),
        Err(e) => Err(e.to_string()),
    }
}

} // verus!
