//! Identifier shaping for the emitted source: keyword escaping and
//! Pascal-casing, done by outside crates behind trusted contracts.

use check_keyword::CheckKeyword;
use convert_case::{Case, Casing};
use vstd::prelude::*;

verus! {

/// The identifier that keyword escaping yields for `s`; a function of the
/// characters of `s` alone.
pub uninterp spec fn safe_ident_of(s: Seq<char>) -> Seq<char>;

/// Relies on check_keyword's `CheckKeyword::into_safe`: the result depends
/// on the characters of `s` alone, and is `s` itself when `s` is no
/// reserved word, `s` behind a raw-identifier mark when that is allowed,
/// and `s` with an underscore appended otherwise.
#[verifier::external_body]
pub fn safe_ident(s: &str) -> (r: String)
    ensures
        r@ == safe_ident_of(s@),
        r@ == s@ || r@ == "r#"@ + s@ || r@ == s@ + "_"@,
{
    s.into_safe()
}

/// The Pascal-case rendering of `s`; a function of the characters of `s`
/// alone.
pub uninterp spec fn pascal_of(s: Seq<char>) -> Seq<char>;

/// Relies on convert_case's `Casing::to_case` with `Case::Pascal`: the
/// result depends on the characters of `s` alone.
#[verifier::external_body]
pub fn pascal(s: &str) -> (r: String)
    ensures
        r@ == pascal_of(s@),
{
    s.to_case(Case::Pascal)
}

} // verus!
