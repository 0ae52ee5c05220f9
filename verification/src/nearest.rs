//! Selection among the intersections of one ray with the scene's surfaces.
//!
//! Distances come as ranks: unsigned integers that grow with the distance
//! they stand for, zero standing for no distance at all. A renderer whose
//! distances are non-negative IEEE-754 single-precision values can use their
//! bit patterns, which are ordered as the values are. `hits[i]` is the rank at
//! which the ray meets surface `i`, or `None` where it misses it.

use vstd::prelude::*;

verus! {

/// Surface `k` is the nearest one hit: nothing is nearer, and every surface
/// listed before it is strictly farther, so that of two surfaces at the same
/// distance the one listed first counts.
pub open spec fn is_closest(hits: Seq<Option<u32>>, k: int) -> bool {
    &&& 0 <= k < hits.len()
    &&& hits[k] is Some
    &&& forall|i: int|
        0 <= i < hits.len() && hits[i] is Some ==> hits[k].unwrap() <= (#[trigger] hits[i]).unwrap()
    &&& forall|i: int| 0 <= i < k && hits[i] is Some ==> hits[k].unwrap() < (#[trigger] hits[i]).unwrap()
}

/// The ray meets no surface.
pub open spec fn misses_all(hits: Seq<Option<u32>>) -> bool {
    forall|i: int| 0 <= i < hits.len() ==> (#[trigger] hits[i]) is None
}

/// Surface `i` blocks a shadow ray that starts on surface `ignore_index`:
/// it is another surface, met after the start and no farther than `reach`.
pub open spec fn blocks(hits: Seq<Option<u32>>, ignore_index: int, reach: u32, i: int) -> bool {
    &&& 0 <= i < hits.len()
    &&& i != ignore_index
    &&& hits[i] matches Some(t) && 0 < t <= reach
}

/// Some surface blocks the shadow ray.
pub open spec fn shadowed(hits: Seq<Option<u32>>, ignore_index: int, reach: u32) -> bool {
    exists|i: int| blocks(hits, ignore_index, reach, i)
}

/// Finds the nearest surface that a ray hits.
///
/// Returns its index, or `None` where the ray hits nothing. Among surfaces
/// at the same distance the first one wins.
pub fn closest_object_index(hits: &Vec<Option<u32>>) -> (res: Option<usize>)
    ensures
        match res {
            Some(k) => is_closest(hits@, k as int),
            None => misses_all(hits@),
        },
{
    let mut best: Option<usize> = None;
    let mut best_rank: u32 = 0;
    let mut i: usize = 0;
    while i < hits.len()
        invariant
            i <= hits.len(),
            match best {
                Some(k) => is_closest(hits@.take(i as int), k as int) && best_rank == hits[k as int].unwrap(),
                None => misses_all(hits@.take(i as int)),
            },
        decreases hits.len() - i,
    {
        let ghost seen = hits@.take(i as int);
        let ghost grown = hits@.take(i + 1);
        assert(forall|j: int| 0 <= j < i ==> grown[j] == seen[j]);
        assert(grown[i as int] == hits[i as int]);
        match hits[i] {
            Some(rank) => {
                if best.is_none() || rank < best_rank {
                    best = Some(i);
                    best_rank = rank;
                }
            },
            None => {},
        }
        i += 1;
    }
    assert(hits@.take(i as int) =~= hits@);
    best
}

/// Tells whether a light is hidden from a surface point.
///
/// `hits` holds the intersections of the shadow ray, which starts on surface
/// `ignore_index` and reaches the light's side at rank `reach`. The point is
/// shadowed exactly if some other surface lies on the way.
pub fn is_shadowed(hits: &Vec<Option<u32>>, ignore_index: usize, reach: u32) -> (shadowed: bool)
    ensures
        shadowed <==> self::shadowed(hits@, ignore_index as int, reach),
{
    let mut i: usize = 0;
    while i < hits.len()
        invariant
            i <= hits.len(),
            forall|j: int| 0 <= j < i ==> !blocks(hits@, ignore_index as int, reach, j),
        decreases hits.len() - i,
    {
        if i != ignore_index {
            match hits[i] {
                Some(t) => {
                    if 0 < t && t <= reach {
                        assert(blocks(hits@, ignore_index as int, reach, i as int));
                        return true;
                    }
                },
                None => {},
            }
        }
        i += 1;
    }
    false
}

/// At most one surface is the nearest: the rule picks a surface, not a
/// distance.
pub proof fn lemma_closest_is_unique(hits: Seq<Option<u32>>, j: int, k: int)
    requires
        is_closest(hits, j),
        is_closest(hits, k),
    ensures
        j == k,
{
    if j < k {
        assert(hits[k].unwrap() < hits[j].unwrap());
        assert(hits[j].unwrap() <= hits[k].unwrap());
    } else if k < j {
        assert(hits[j].unwrap() < hits[k].unwrap());
        assert(hits[k].unwrap() <= hits[j].unwrap());
    }
}

/// A ray that hits any surface has a nearest one, and a ray that has a
/// nearest one hits a surface.
pub proof fn lemma_closest_exists(hits: Seq<Option<u32>>)
    ensures
        misses_all(hits) <==> !exists|k: int| is_closest(hits, k),
    decreases hits.len(),
{
    if misses_all(hits) {
        assert forall|k: int| !is_closest(hits, k) by {
            if 0 <= k < hits.len() {
                assert(hits[k] is None);
            }
        }
    } else {
        let n = hits.len() - 1;
        let front = hits.take(n);
        lemma_closest_exists(front);
        assert(forall|i: int| 0 <= i < n ==> front[i] == hits[i]);
        if misses_all(front) {
            assert(hits[n] is Some);
            assert(is_closest(hits, n));
        } else {
            let j = choose|j: int| is_closest(front, j);
            if hits[n] is Some && hits[n].unwrap() < front[j].unwrap() {
                assert(is_closest(hits, n));
            } else {
                assert(is_closest(hits, j));
            }
        }
    }
}

} // verus!
