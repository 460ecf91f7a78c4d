//! Various supporting functionality.

use crate::text::{contains_sub, has_sub};
use vstd::prelude::*;

verus! {

/// The lower-case folding of `s`; a function of the characters of `s`
/// alone.
pub uninterp spec fn lower_of(s: Seq<char>) -> Seq<char>;

/// Relies on str::to_lowercase: the folding depends on the characters of
/// `s` alone.
#[verifier::external_body]
fn lowercase(s: &str) -> (r: String)
    ensures
        r@ == lower_of(s@),
{
    s.to_lowercase()
}

/// Whether `name` falls on the list of API object names whose response
/// data is known to come back with `null` in fields the schema declares
/// non-nullable. Struct generation widens the fields of such objects when
/// workaround mode is on.
pub open spec fn spec_unsanitary(name: Seq<char>) -> bool {
    has_sub(lower_of(name), "interface"@)
}

/// Whether `name` matches, case-insensitively and as a substring, an entry
/// of the list of object names with unsanitary response data. The list is
/// maintained by hand and currently holds `interface` alone.
pub fn is_unsanitary(name: &str) -> (r: bool)
    ensures
        r == spec_unsanitary(name@),
{
    let lower = lowercase(name);
    contains_sub(lower.as_str(), "interface")
}

} // verus!
