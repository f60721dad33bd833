use vstd::prelude::*;

verus! {

/// Hits at or below this distance (millionths of a unit) count as none.
pub const MIN_HIT_DISTANCE: u64 = 1000;

/// Length of the ray drawn when a pointer points at nothing.
pub const DEFAULT_RAY_LENGTH: u64 = 20_000_000;

/// A hit at a positive distance.
pub open spec fn is_positive_hit(h: Option<u64>) -> bool {
    h matches Some(e) && e > 0
}

/// Whether some overlay reports a hit at a positive distance.
pub open spec fn has_hit(hits: Seq<Option<u64>>) -> bool {
    exists|i: int| 0 <= i < hits.len() && is_positive_hit(#[trigger] hits[i])
}

/// `d` is the nearest positive distance among the overlays' hits.
pub open spec fn is_nearest_hit(hits: Seq<Option<u64>>, d: u64) -> bool {
    &&& d > 0
    &&& hits.contains(Some(d))
    &&& forall|i: int|
        0 <= i < hits.len() && is_positive_hit(#[trigger] hits[i]) ==> d <= hits[i]->0
}

/// Resolves a pointer's interaction from what its ray hits on each overlay
/// (`None` where it misses): the nearest hit at a positive distance, if any.
pub fn nearest_hit(hits: &Vec<Option<u64>>) -> (r: Option<u64>)
    ensures
        r matches Some(d) ==> is_nearest_hit(hits@, d),
        r is None <==> !has_hit(hits@),
{
    let mut best: Option<u64> = None;
    let mut i: usize = 0;
    while i < hits.len()
        invariant
            i <= hits@.len(),
            best matches Some(d) ==> is_nearest_hit(hits@.subrange(0, i as int), d),
            best is None <==> !has_hit(hits@.subrange(0, i as int)),
        decreases hits@.len() - i,
    {
        let ghost before = hits@.subrange(0, i as int);
        let h = hits[i];
        let ghost after = hits@.subrange(0, i + 1);
        assert(after == before.push(h));
        assert(after[i as int] == h);
        assert forall|j: int| 0 <= j < i implies after[j] == before[j] by {}
        if let Some(e) = h {
            if e > 0 {
                match best {
                    Some(d) => {
                        if e < d {
                            best = Some(e);
                        }
                    },
                    None => {
                        best = Some(e);
                    },
                }
            }
        }
        proof {
            if let Some(d) = best {
                if before.contains(Some(d)) {
                    let k = choose|k: int| 0 <= k < before.len() && before[k] == Some(d);
                    assert(after[k] == Some(d));
                }
                assert(after.contains(Some(d))) by {
                    if !before.contains(Some(d)) {
                        assert(after[i as int] == Some(d));
                    }
                }
            }
            if has_hit(before) {
                let k = choose|k: int| 0 <= k < before.len() && is_positive_hit(#[trigger] before[k]);
                assert(after[k] == before[k]);
            }
        }
        i = i + 1;
    }
    assert(hits@.subrange(0, hits@.len() as int) == hits@);
    best
}

/// Interaction resolution depends on the hits alone: with the same pointer
/// pose and overlay geometry, two resolutions in one frame find the same
/// distance.
pub proof fn lemma_nearest_hit_unique(hits: Seq<Option<u64>>, d1: u64, d2: u64)
    requires
        is_nearest_hit(hits, d1),
        is_nearest_hit(hits, d2),
    ensures
        d1 == d2,
{
    let i1 = choose|i: int| 0 <= i < hits.len() && hits[i] == Some(d1);
    let i2 = choose|i: int| 0 <= i < hits.len() && hits[i] == Some(d2);
    assert(is_positive_hit(hits[i1]));
    assert(is_positive_hit(hits[i2]));
}

/// The length of the ray drawn for an interaction distance: the distance
/// itself when it is significant, the default length otherwise.
pub open spec fn ray_length_of(hit: Option<u64>) -> u64 {
    match hit {
        Some(d) => if d > MIN_HIT_DISTANCE {
            d
        } else {
            DEFAULT_RAY_LENGTH
        },
        None => DEFAULT_RAY_LENGTH,
    }
}

pub fn ray_length(hit: Option<u64>) -> (r: u64)
    ensures
        r == ray_length_of(hit),
{
    match hit {
        Some(d) => if d > MIN_HIT_DISTANCE {
            d
        } else {
            DEFAULT_RAY_LENGTH
        },
        None => DEFAULT_RAY_LENGTH,
    }
}

} // verus!
