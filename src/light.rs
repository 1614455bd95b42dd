use vstd::prelude::*;

use crate::order::{binary64_lt, lt64};

verus! {

/// How a shadow ray toward a light is judged. A directional light is
/// infinitely far: any hit along the shadow ray blocks it. A point light
/// lies `light_distance` (a binary64 pattern) away from the shaded point:
/// only a hit strictly nearer than that blocks it.
#[derive(Clone, Copy, Debug, PartialEq, Eq, Structural)]
pub enum ShadowTest {
    Directional,
    Point { light_distance: u64 },
}

/// Whether the light reaches the shaded point, given the distance of the
/// nearest hit along the shadow ray, if any.
pub open spec fn lit(test: ShadowTest, occluder: Option<u64>) -> bool {
    match occluder {
        None => true,
        Some(d) => match test {
            ShadowTest::Directional => false,
            ShadowTest::Point { light_distance } => !lt64(d, light_distance),
        },
    }
}

/// Decides whether a light reaches the shaded point from the nearest hit of
/// its shadow ray.
pub fn in_light(test: ShadowTest, occluder: Option<u64>) -> (r: bool)
    ensures
        r == lit(test, occluder),
{
    match occluder {
        None => true,
        Some(d) => match test {
            ShadowTest::Directional => false,
            ShadowTest::Point { light_distance } => !binary64_lt(d, light_distance),
        },
    }
}

/// A point light farther away than the occluder on its shadow ray is
/// shadowed by it; one nearer than the occluder is not.
pub proof fn lemma_point_light_occlusion(occluder: u64, light_distance: u64)
    ensures
        lt64(occluder, light_distance) ==> !lit(
            ShadowTest::Point { light_distance },
            Some(occluder),
        ),
        lt64(light_distance, occluder) ==> lit(
            ShadowTest::Point { light_distance },
            Some(occluder),
        ),
{
}

} // verus!
