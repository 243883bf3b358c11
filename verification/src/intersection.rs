//! Nearest-hit resolution.
//!
//! For one ray, every primitive whose bounding box the ray crosses is tested
//! with its shape-specific intersector, and among the positive hit distances
//! the minimum wins; a tie goes to the primitive earliest in scene order. The
//! geometric tests work on floating-point distances outside the verified
//! library; the selection rule is decided here, over the distances' bit
//! patterns — for positive IEEE 754 floats the bit patterns order exactly as
//! the numbers do, so the caller hands each distance over as its bits.

use vstd::prelude::*;

verus! {

/// Picks the winning hit from the hit distances of one ray, each given as the
/// bit pattern of a positive floating-point distance: the index of the
/// smallest distance, and of the earliest such entry should several be
/// equally near. `None` exactly when nothing was hit.
pub fn nearest_hit(distances: &Vec<u32>) -> (result: Option<usize>)
    ensures
        match result {
            Some(i) => {
                &&& i < distances@.len()
                &&& forall|j: int|
                    0 <= j < distances@.len() ==> distances@[i as int] <= #[trigger] distances@[j]
                &&& forall|j: int| 0 <= j < i ==> distances@[i as int] < #[trigger] distances@[j]
            },
            None => distances@.len() == 0,
        },
{
    if distances.len() == 0 {
        return None;
    }
    let mut best: usize = 0;
    let mut k: usize = 1;
    while k < distances.len()
        invariant
            best < k <= distances@.len(),
            forall|j: int| 0 <= j < k ==> distances@[best as int] <= #[trigger] distances@[j],
            forall|j: int| 0 <= j < best ==> distances@[best as int] < #[trigger] distances@[j],
        decreases distances@.len() - k,
    {
        if distances[k] < distances[best] {
            best = k;
        }
        k = k + 1;
    }
    Some(best)
}

} // verus!
