use vstd::prelude::*;

use crate::order::{binary64_lt, le64, lt64, nan64};

verus! {

/// Pattern of binary64 `+0.0`.
pub const ZERO64: u64 = 0;

/// The hit that a ray-sphere test reports from its two candidate roots
/// `t0 = adjacent - thickness` and `t1 = adjacent + thickness`: none where
/// both lie behind the ray's origin, else the smaller one, which may itself
/// be negative when the origin is inside the sphere.
pub open spec fn entry_of(t0: u64, t1: u64) -> Option<u64> {
    if lt64(t0, ZERO64) && lt64(t1, ZERO64) {
        None
    } else if lt64(t0, t1) {
        Some(t0)
    } else {
        Some(t1)
    }
}

/// Whether a ray misses a sphere because the squared distance `d2` from the
/// sphere's center to the ray's line exceeds the squared radius.
pub fn outside_radius(d2: u64, radius_sq: u64) -> (r: bool)
    ensures
        r == lt64(radius_sq, d2),
{
    binary64_lt(radius_sq, d2)
}

/// Picks the distance of a ray-sphere hit from the two candidate roots.
pub fn entry_distance(t0: u64, t1: u64) -> (r: Option<u64>)
    ensures
        r == entry_of(t0, t1),
        !nan64(t0) && !nan64(t1) && r is Some ==> le64(r->0, t0) && le64(r->0, t1),
{
    if binary64_lt(t0, ZERO64) && binary64_lt(t1, ZERO64) {
        None
    } else if binary64_lt(t0, t1) {
        Some(t0)
    } else {
        Some(t1)
    }
}

} // verus!
