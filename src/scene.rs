use vstd::prelude::*;

use crate::order::{binary64_lt, le64, lt64, nan64};

verus! {

/// The nearest hit of a ray among a scene's objects: the object's position in
/// the scene's object list, and the binary64 pattern of its distance.
#[derive(Clone, Copy, Debug, PartialEq, Eq, Structural)]
pub struct Collision {
    pub index: usize,
    pub distance: u64,
}

/// No object's test yielded a distance that is a NaN.
pub open spec fn no_nan_hits(hits: Seq<Option<u64>>) -> bool {
    forall|i: int| 0 <= i < hits.len() && #[trigger] hits[i] is Some ==> !nan64(hits[i]->0)
}

/// `c` is the nearest hit among `hits`, the first one in list order where
/// several lie at the same distance.
pub open spec fn is_nearest(hits: Seq<Option<u64>>, c: Collision) -> bool {
    &&& c.index < hits.len()
    &&& hits[c.index as int] == Some(c.distance)
    &&& forall|j: int|
        0 <= j < hits.len() && #[trigger] hits[j] is Some ==> le64(c.distance, hits[j]->0)
    &&& forall|j: int|
        0 <= j < c.index && #[trigger] hits[j] is Some ==> lt64(c.distance, hits[j]->0)
}

/// Finds the nearest of the per-object hits of one ray (`hits[i]` is the
/// distance at which object `i` is hit, if it is). The first of equally near
/// hits wins. Where some distance is a NaN, a hit is still reported exactly
/// when there is one, but which one is left open.
pub fn nearest_collision(hits: &Vec<Option<u64>>) -> (r: Option<Collision>)
    ensures
        r is None <==> forall|j: int| 0 <= j < hits@.len() ==> #[trigger] hits@[j] is None,
        r is Some ==> r->0.index < hits@.len() && hits@[r->0.index as int] == Some(r->0.distance),
        r is Some && no_nan_hits(hits@) ==> is_nearest(hits@, r->0),
{
    let mut best: Option<Collision> = None;
    let mut i: usize = 0;
    while i < hits.len()
        invariant
            i <= hits@.len(),
            best is None <==> forall|j: int| 0 <= j < i ==> #[trigger] hits@[j] is None,
            best is Some ==> best->0.index < i && hits@[best->0.index as int] == Some(best->0.distance),
            best is Some && no_nan_hits(hits@) ==> is_nearest(hits@.subrange(0, i as int), best->0),
        decreases hits.len() - i,
    {
        if let Some(d) = hits[i] {
            let replace = match best {
                None => true,
                Some(b) => binary64_lt(d, b.distance),
            };
            if replace {
                best = Some(Collision { index: i, distance: d });
            }
        }
        assert(hits@.subrange(0, i + 1).drop_last() =~= hits@.subrange(0, i as int));
        i += 1;
    }
    assert(hits@.subrange(0, i as int) =~= hits@);
    best
}

} // verus!
