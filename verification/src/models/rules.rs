//! The two field rules that the request bodies are held to, as the
//! `validator` crate checks them.

use vstd::prelude::*;

verus! {

/// A string holds at least `min` characters.
pub open spec fn long_enough(value: Seq<char>, min: u64) -> bool {
    value.len() >= min
}

/// A number is at least `min`.
pub open spec fn large_enough(value: u32, min: u32) -> bool {
    value >= min
}

/// `validator::validate_length` with a lower bound alone: it counts the
/// characters of `value` and answers whether there are at least `min`.
/// Trusted, not proved.
#[verifier::external_body]
pub(crate) fn validate_min_length(value: &String, min: u64) -> (ok: bool)
    ensures
        ok == long_enough(value@, min),
{
    validator::validate_length(value, Some(min), None, None)
}

/// `validator::validate_range` with a lower bound alone: it answers whether
/// `value` is not below `min`. Trusted, not proved.
#[verifier::external_body]
pub(crate) fn validate_min(value: u32, min: u32) -> (ok: bool)
    ensures
        ok == large_enough(value, min),
{
    validator::validate_range(value, Some(min), None)
}

} // verus!
