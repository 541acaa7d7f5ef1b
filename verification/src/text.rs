//! Small string helpers over `std` that vstd gives no specification for.

use vstd::prelude::*;

verus! {

/// The views of a list of strings.
pub open spec fn views(v: Seq<String>) -> Seq<Seq<char>> {
    v.map_values(|s: String| s@)
}

/// Appends one character to a `String` (`String::push`).
///
/// Trusted: the contract claims that `push` appends exactly `c` at the end.
#[verifier::external_body]
pub(crate) fn push_char(s: &mut String, c: char)
    ensures
        final(s)@ == old(s)@.push(c),
{
    s.push(c);
}

/// Whether two string slices are equal (`str == str`).
///
/// Trusted: the contract claims that `==` compares the characters.
#[verifier::external_body]
pub(crate) fn str_eq(a: &str, b: &str) -> (r: bool)
    ensures
        r == (a@ == b@),
{
    a == b
}

/// Whether `pattern` occurs in `s` (`str::contains`).
///
/// Trusted: the contract claims that `contains` finds a substring at some position.
#[verifier::external_body]
pub(crate) fn str_contains(s: &str, pattern: &str) -> (r: bool)
    ensures
        r == crate::cache::has_substring(s@, pattern@),
{
    s.contains(pattern)
}

} // verus!
