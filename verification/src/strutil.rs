//! Thin verified interfaces over std string functions that vstd does not
//! specify.

use vstd::prelude::*;

verus! {

/// `p` is an initial segment of `m`.
pub open spec fn spec_starts_with(m: Seq<char>, p: Seq<char>) -> bool {
    p.len() <= m.len() && m.subrange(0, p.len() as int) == p
}

/// Relies on `str::starts_with` with a `&str` pattern: returns true exactly
/// when the pattern's characters form a prefix of the string's characters.
#[verifier::external_body]
pub(crate) fn str_starts_with(m: &str, p: &str) -> (r: bool)
    ensures
        r == spec_starts_with(m@, p@),
{
    m.starts_with(p)
}

/// Relies on `<str as PartialEq>::eq`: two string slices are equal exactly
/// when their character sequences are equal.
#[verifier::external_body]
pub(crate) fn str_eq(a: &str, b: &str) -> (r: bool)
    ensures
        r == (a@ == b@),
{
    a == b
}

/// The view of an optional owned string.
pub open spec fn view_opt_str(o: Option<String>) -> Option<Seq<char>> {
    match o {
        Some(s) => Some(s@),
        None => None,
    }
}

} // verus!
