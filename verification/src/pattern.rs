//! Literal matching of a pattern against one end of a path.

use vstd::prelude::*;

verus! {

/// Calls `str::starts_with` with a string pattern.
///
/// Believed, not proved: the call answers whether the characters of `pattern`
/// are the first characters of `path`, which is what std documents for a
/// pattern that is a string slice. An empty pattern opens every path.
#[verifier::external_body]
pub(crate) fn starts_with(path: &str, pattern: &str) -> (hit: bool)
    ensures
        hit == pattern@.is_prefix_of(path@),
{
    path.starts_with(pattern)
}

/// Calls `str::ends_with` with a string pattern.
///
/// Believed, not proved: the call answers whether the characters of `pattern`
/// are the last characters of `path`, which is what std documents for a
/// pattern that is a string slice. An empty pattern closes every path.
#[verifier::external_body]
pub(crate) fn ends_with(path: &str, pattern: &str) -> (hit: bool)
    ensures
        hit == pattern@.is_suffix_of(path@),
{
    path.ends_with(pattern)
}

} // verus!
