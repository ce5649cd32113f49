//! The search for an ID that is free, among IDs that are drawn at random.

use vstd::prelude::*;

verus! {

/// The number of IDs that are drawn before a search gives up.
pub const ID_ATTEMPTS: usize = 50;

/// The first of the candidates that is not taken.
pub open spec fn first_free<K>(candidates: Seq<K>, taken: Set<K>) -> Option<K>
    decreases candidates.len(),
{
    if candidates.len() == 0 {
        None
    } else if !taken.contains(candidates[0]) {
        Some(candidates[0])
    } else {
        first_free(candidates.drop_first(), taken)
    }
}

} // verus!
