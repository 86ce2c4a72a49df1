//! The single source of randomness for the simulation and rule
//! calculators: a uniform draw from an inclusive integer range.

use vstd::prelude::*;

verus! {

/// Relies on rand::random_range over the inclusive range `lo..=hi`: the
/// range is non-empty, so the sample it draws always lies within it.
/// Nothing more is assumed of the draw.
#[verifier::external_body]
pub(crate) fn roll_range(lo: i32, hi: i32) -> (r: i32)
    requires
        lo <= hi,
    ensures
        lo <= r <= hi,
{
    rand::random_range(lo..=hi)
}

} // verus!
