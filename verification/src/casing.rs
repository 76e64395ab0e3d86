//! Case conversions used when resolving names: the `rename_all` policies and
//! the Elm style conventions (`UpperCamelCase` type and variant names,
//! `lowerCamelCase` field and function names).
//!
//! The conversions themselves are performed by the `heck` crate and by the
//! standard library's Unicode case mappings. Each result is a pure function
//! of the input characters alone, so it is given a name here and the rest of
//! the crate reasons through that name.

use heck::ToKebabCase;
use heck::ToLowerCamelCase;
use heck::ToPascalCase;
use heck::ToShoutyKebabCase;
use heck::ToShoutySnakeCase;
use heck::ToSnakeCase;
use vstd::prelude::*;

verus! {

pub uninterp spec fn pascal_of(s: Seq<char>) -> Seq<char>;

pub uninterp spec fn lower_camel_of(s: Seq<char>) -> Seq<char>;

pub uninterp spec fn snake_of(s: Seq<char>) -> Seq<char>;

pub uninterp spec fn shouty_snake_of(s: Seq<char>) -> Seq<char>;

pub uninterp spec fn kebab_of(s: Seq<char>) -> Seq<char>;

pub uninterp spec fn shouty_kebab_of(s: Seq<char>) -> Seq<char>;

pub uninterp spec fn lower_of(s: Seq<char>) -> Seq<char>;

pub uninterp spec fn upper_of(s: Seq<char>) -> Seq<char>;

/// Relies on heck's `str::to_pascal_case`: the result depends on the input
/// characters alone.
#[verifier::external_body]
pub fn pascal_case(s: &str) -> (r: String)
    ensures
        r@ == pascal_of(s@),
{
    s.to_pascal_case()
}

/// Relies on heck's `str::to_lower_camel_case`: the result depends on the
/// input characters alone.
#[verifier::external_body]
pub fn lower_camel_case(s: &str) -> (r: String)
    ensures
        r@ == lower_camel_of(s@),
{
    s.to_lower_camel_case()
}

/// Relies on heck's `str::to_snake_case`: the result depends on the input
/// characters alone.
#[verifier::external_body]
pub fn snake_case(s: &str) -> (r: String)
    ensures
        r@ == snake_of(s@),
{
    s.to_snake_case()
}

/// Relies on heck's `str::to_shouty_snake_case`: the result depends on the
/// input characters alone.
#[verifier::external_body]
pub fn shouty_snake_case(s: &str) -> (r: String)
    ensures
        r@ == shouty_snake_of(s@),
{
    s.to_shouty_snake_case()
}

/// Relies on heck's `str::to_kebab_case`: the result depends on the input
/// characters alone.
#[verifier::external_body]
pub fn kebab_case(s: &str) -> (r: String)
    ensures
        r@ == kebab_of(s@),
{
    s.to_kebab_case()
}

/// Relies on heck's `str::to_shouty_kebab_case`: the result depends on the
/// input characters alone.
#[verifier::external_body]
pub fn shouty_kebab_case(s: &str) -> (r: String)
    ensures
        r@ == shouty_kebab_of(s@),
{
    s.to_shouty_kebab_case()
}

/// Relies on `str::to_lowercase` of the standard library: the Unicode
/// lowercase mapping depends on the input characters alone.
#[verifier::external_body]
pub fn lowercase(s: &str) -> (r: String)
    ensures
        r@ == lower_of(s@),
{
    s.to_lowercase()
}

/// Relies on `str::to_uppercase` of the standard library: the Unicode
/// uppercase mapping depends on the input characters alone.
#[verifier::external_body]
pub fn uppercase(s: &str) -> (r: String)
    ensures
        r@ == upper_of(s@),
{
    s.to_uppercase()
}

} // verus!
