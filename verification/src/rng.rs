//! The crate's one source of randomness: serve regions and serve spawn
//! heights are drawn through it.

use vstd::prelude::*;
use rand::Rng;

verus! {

/// Relies on `rand::Rng::gen_range` over the inclusive range `lo..=hi`:
/// the sample lies within the range, and the range is non-empty because
/// `lo <= hi` (an empty range would panic). Nothing more is assumed of the
/// draw: callers must hold for every value between the bounds.
#[verifier::external_body]
pub fn rand_in_range(lo: u64, hi: u64) -> (r: u64)
    requires
        lo <= hi,
    ensures
        lo <= r <= hi,
{
    rand::thread_rng().gen_range(lo..=hi)
}

} // verus!
