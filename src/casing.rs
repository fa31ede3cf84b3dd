//! Case conversions of identifiers.

use vstd::prelude::*;

verus! {

/// What `char::to_uppercase` yields for `c`.
pub uninterp spec fn char_uppercase(c: char) -> Seq<char>;

/// What `str::to_uppercase` yields for `s`.
pub uninterp spec fn str_uppercase(s: Seq<char>) -> Seq<char>;

/// What `str::to_lowercase` yields for `s`.
pub uninterp spec fn str_lowercase(s: Seq<char>) -> Seq<char>;

/// What heck's `ToPascalCase` yields for `s`.
pub uninterp spec fn pascal_case(s: Seq<char>) -> Seq<char>;

/// What heck's `ToLowerCamelCase` yields for `s`.
pub uninterp spec fn lower_camel_case(s: Seq<char>) -> Seq<char>;

/// Relies on `char::to_uppercase`: the uppercase mapping of `c`, which
/// depends on `c` alone.
#[verifier::external_body]
fn uppercase_char(c: char) -> (r: String)
    ensures
        r@ == char_uppercase(c),
{
    c.to_uppercase().collect()
}

/// Relies on `str::to_uppercase`: the uppercase mapping of `s`, which
/// depends on `s` alone; an empty string stays empty.
#[verifier::external_body]
pub(crate) fn uppercase(s: &str) -> (r: String)
    ensures
        r@ == str_uppercase(s@),
        s@.len() == 0 ==> r@.len() == 0,
{
    s.to_uppercase()
}

/// Relies on `str::to_lowercase`: the lowercase mapping of `s`, which
/// depends on `s` alone.
#[verifier::external_body]
pub(crate) fn lowercase(s: &str) -> (r: String)
    ensures
        r@ == str_lowercase(s@),
{
    s.to_lowercase()
}

/// Relies on heck's `ToPascalCase::to_pascal_case`: the words of `s` joined
/// in PascalCase, which depends on `s` alone.
#[verifier::external_body]
pub(crate) fn to_pascal_case(s: &str) -> (r: String)
    ensures
        r@ == pascal_case(s@),
{
    heck::ToPascalCase::to_pascal_case(s)
}

/// Relies on heck's `ToLowerCamelCase::to_lower_camel_case`: the words of `s`
/// joined in lowerCamelCase, which depends on `s` alone.
#[verifier::external_body]
pub(crate) fn to_lower_camel_case(s: &str) -> (r: String)
    ensures
        r@ == lower_camel_case(s@),
{
    heck::ToLowerCamelCase::to_lower_camel_case(s)
}

/// `s` with its first character in uppercase.
pub open spec fn capitalized(s: Seq<char>) -> Seq<char> {
    if s.len() == 0 {
        s
    } else {
        char_uppercase(s[0]) + s.drop_first()
    }
}

/// Capitalizes the first letter of `s`.
pub fn capitalize(s: &str) -> (r: String)
    ensures
        r@ == capitalized(s@),
{
    let n = s.unicode_len();
    if n == 0 {
        return String::new();
    }
    let mut r = uppercase_char(s.get_char(0));
    r.append(s.substring_char(1, n));
    assert(s@.subrange(1, n as int) =~= s@.drop_first());
    r
}

} // verus!
