//! Broad-phase collision queries: given a query box and a list of
//! candidate boxes, report exactly which candidates overlap the query.
//!
//! At this scale (tens of entities) a pairwise scan is sufficient; the
//! index is rebuilt from the current entity set on every simulation
//! step and holds no state between steps. The result is characterised
//! purely by membership, so as a set of identities it does not depend
//! on the order candidates were inserted in.

use vstd::prelude::*;
use crate::geom::{Aabb, overlaps, overlaps_exec};

verus! {

/// Indices (into `candidates`) of exactly the boxes that overlap
/// `query`, in increasing order.
pub fn query_overlaps(query: &Aabb, candidates: &Vec<Aabb>) -> (hits: Vec<usize>)
    ensures
        forall|k: int| 0 <= k < hits@.len()
            ==> #[trigger] hits@[k] < candidates@.len()
                && overlaps(*query, candidates@[hits@[k] as int]),
        forall|i: int| 0 <= i < candidates@.len() && overlaps(*query, #[trigger] candidates@[i])
            ==> hits@.contains(i as usize),
        forall|k1: int, k2: int| 0 <= k1 < k2 < hits@.len()
            ==> hits@[k1] < hits@[k2],
{
    let mut hits: Vec<usize> = Vec::new();
    let n = candidates.len();
    for i in 0..n
        invariant
            n == candidates@.len(),
            forall|k: int| 0 <= k < hits@.len()
                ==> #[trigger] hits@[k] < i
                    && overlaps(*query, candidates@[hits@[k] as int]),
            forall|j: int| 0 <= j < i && overlaps(*query, #[trigger] candidates@[j])
                ==> hits@.contains(j as usize),
            forall|k1: int, k2: int| 0 <= k1 < k2 < hits@.len()
                ==> hits@[k1] < hits@[k2],
    {
        if overlaps_exec(query, &candidates[i]) {
            let ghost prev = hits@;
            hits.push(i);
            assert forall|j: int| 0 <= j < i + 1 && overlaps(*query, #[trigger] candidates@[j])
                implies hits@.contains(j as usize) by {
                if j < i {
                    let k = choose|k: int| 0 <= k < prev.len() && prev[k] == j as usize;
                    assert(hits@[k] == j as usize);
                } else {
                    assert(hits@[hits@.len() - 1] == i);
                }
            }
        }
    }
    hits
}

/// Whether `x` occurs in `hits`.
pub fn contains_idx(hits: &Vec<usize>, x: usize) -> (r: bool)
    ensures
        r == hits@.contains(x),
{
    let n = hits.len();
    for k in 0..n
        invariant
            n == hits@.len(),
            forall|j: int| 0 <= j < k ==> hits@[j] != x,
    {
        if hits[k] == x {
            return true;
        }
    }
    false
}

} // verus!
