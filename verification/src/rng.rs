use vstd::prelude::*;

verus! {

/// A random integer drawn by `rand::random_range` from the half-open range
/// `lo..hi` with the thread-local generator. Trusted: the result is some
/// value of the range (rand panics on an empty range, which `requires`
/// leaves out); which one is left to chance and is not stated.
#[verifier::external_body]
pub(crate) fn random_in(lo: u32, hi: u32) -> (r: u32)
    requires
        lo < hi,
    ensures
        lo <= r < hi,
{
    rand::random_range(lo..hi)
}

} // verus!
