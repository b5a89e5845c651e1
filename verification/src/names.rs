//! The two naming conventions of generated identifiers: upper camel case for
//! type names, snake case for accessor names.

use heck::ToSnakeCase;
use heck::ToUpperCamelCase;
use vstd::prelude::*;

verus! {

/// The upper camel case form that `heck` gives to `raw`.
pub uninterp spec fn upper_camel_case(raw: Seq<char>) -> Seq<char>;

/// The snake case form that `heck` gives to `raw`.
pub uninterp spec fn snake_case(raw: Seq<char>) -> Seq<char>;

/// Calls `heck::ToUpperCamelCase::to_upper_camel_case` on a `str`.
///
/// The conversion depends on the characters of `raw` alone, so its result is
/// named by [`upper_camel_case`]; nothing else is claimed of it.
#[verifier::external_body]
fn heck_upper_camel_case(raw: &str) -> (out: String)
    ensures
        out@ == upper_camel_case(raw@),
{
    raw.to_upper_camel_case()
}

/// Calls `heck::ToSnakeCase::to_snake_case` on a `str`.
///
/// The conversion depends on the characters of `raw` alone, so its result is
/// named by [`snake_case`]; nothing else is claimed of it.
#[verifier::external_body]
fn heck_snake_case(raw: &str) -> (out: String)
    ensures
        out@ == snake_case(raw@),
{
    raw.to_snake_case()
}

/// The name of the type generated for the call named `raw`.
pub fn to_type_name(raw: &str) -> (name: String)
    ensures
        name@ == upper_camel_case(raw@),
{
    heck_upper_camel_case(raw)
}

/// The name of the accessor generated for the call named `raw`.
pub fn to_accessor_name(raw: &str) -> (name: String)
    ensures
        name@ == snake_case(raw@),
{
    heck_snake_case(raw)
}

} // verus!
