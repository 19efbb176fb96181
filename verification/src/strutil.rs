//! Small trusted shims over `str` operations that vstd leaves unspecified.

use vstd::prelude::*;

verus! {

/// Relies on `str`'s `PartialEq`: slices are equal exactly when their
/// character sequences are.
#[verifier::external_body]
pub fn str_eq(a: &str, b: &str) -> (r: bool)
    ensures
        r == (a@ == b@),
{
    a == b
}

/// Whether `suffix` is a suffix of `s`.
pub open spec fn seq_ends_with(s: Seq<char>, suffix: Seq<char>) -> bool {
    suffix.len() <= s.len() && s.skip(s.len() - suffix.len()) == suffix
}

/// Relies on `str::ends_with` with a `&str` pattern: true exactly when the
/// pattern is a suffix of the slice.
#[verifier::external_body]
pub fn str_ends_with(s: &str, suffix: &str) -> (r: bool)
    ensures
        r == seq_ends_with(s@, suffix@),
{
    s.ends_with(suffix)
}

} // verus!
