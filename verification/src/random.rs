//! Random numbers.

use nanorand::Rng;
use vstd::prelude::*;

verus! {

/// Draws a number that is at least `first` and at most `last`.
///
/// Calls `nanorand::Rng::generate_range` with the inclusive range, on the generator of the
/// current thread, which `nanorand::tls_rng` hands out. Claimed of the number is only that it lies
/// in the range: which one it is depends on the generator.
#[verifier::external_body]
pub(crate) fn random_between(first: u64, last: u64) -> (number: u64)
    requires
        first <= last,
    ensures
        first <= number <= last,
{
    nanorand::tls_rng().generate_range(first..=last)
}

} // verus!
