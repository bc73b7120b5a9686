//! The one place the library touches a random number source. Procedural
//! obstacle generation draws a bounded vertical offset per pair; everything
//! computed from the draw is verified for every value the range admits.

use vstd::prelude::*;

verus! {

/// Relies on `rand::random_range` over the inclusive range `lo..=hi`: the
/// sampled value lies within the range. The range is nonempty by the
/// precondition, so the call cannot panic. Nothing more is assumed of the
/// draw: every caller is verified for every outcome in the range.
#[verifier::external_body]
pub(crate) fn random_in_range(lo: i64, hi: i64) -> (r: i64)
    requires
        lo <= hi,
    ensures
        lo <= r <= hi,
{
    rand::random_range(lo..=hi)
}

} // verus!
