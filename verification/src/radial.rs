//! The selection step of the diameter estimate: which of the vertices' radial
//! distances from the ring axis is the smallest and which the largest.
//!
//! The distances come in as binary64 bit patterns. Distances that denote no
//! number take no part. Among numerically equal candidates the earliest wins.

use crate::binary64::{denotes_nan, is_nan, less, num_lt, order_key};
use vstd::prelude::*;

verus! {

/// The innermost and the outermost radial distance of a vertex sequence.
#[derive(Clone, Copy, Debug, PartialEq, Eq, Structural)]
pub struct RadialExtent {
    /// The smallest distance, as it stood in the sequence.
    pub min: u64,
    /// The largest distance, as it stood in the sequence.
    pub max: u64,
}

/// The distance at `i` is a number, strictly smaller than every number before
/// it and no larger than any number after it.
pub open spec fn first_least(radii: Seq<u64>, i: int) -> bool {
    &&& 0 <= i < radii.len()
    &&& !denotes_nan(radii[i])
    &&& forall|j: int| 0 <= j < i ==> !denotes_nan(#[trigger] radii[j]) ==> num_lt(radii[i], radii[j])
    &&& forall|j: int| i <= j < radii.len() ==> !num_lt(#[trigger] radii[j], radii[i])
}

/// The distance at `i` is a number, strictly larger than every number before
/// it and no smaller than any number after it.
pub open spec fn first_greatest(radii: Seq<u64>, i: int) -> bool {
    &&& 0 <= i < radii.len()
    &&& !denotes_nan(radii[i])
    &&& forall|j: int| 0 <= j < i ==> !denotes_nan(#[trigger] radii[j]) ==> num_lt(radii[j], radii[i])
    &&& forall|j: int| i <= j < radii.len() ==> !num_lt(radii[i], #[trigger] radii[j])
}

/// No distance of the sequence denotes a number.
pub open spec fn none_measurable(radii: Seq<u64>) -> bool {
    forall|i: int| 0 <= i < radii.len() ==> denotes_nan(#[trigger] radii[i])
}

/// `extent` holds the first least and the first greatest distance of `radii`.
pub open spec fn spans(radii: Seq<u64>, extent: RadialExtent) -> bool {
    &&& exists|i: int| first_least(radii, i) && #[trigger] radii[i] == extent.min
    &&& exists|i: int| first_greatest(radii, i) && #[trigger] radii[i] == extent.max
}

/// Finds the innermost and outermost distance. There is none to find where
/// no distance denotes a number, and so for a mesh without vertices.
pub fn radial_extent(radii: &[u64]) -> (r: Option<RadialExtent>)
    ensures
        r is None <==> none_measurable(radii@),
        radii@.len() == 0 ==> r is None,
        r matches Some(extent) ==> spans(radii@, extent) && order_key(extent.min) <= order_key(
            extent.max,
        ),
{
    let mut start: usize = 0;
    while start < radii.len() && is_nan(radii[start])
        invariant
            start <= radii.len(),
            forall|j: int| 0 <= j < start ==> denotes_nan(#[trigger] radii@[j]),
        decreases radii.len() - start,
    {
        start += 1;
    }
    if start == radii.len() {
        return None;
    }
    let mut lo: usize = start;
    let mut hi: usize = start;
    let mut k: usize = start + 1;
    while k < radii.len()
        invariant
            start <= lo < k <= radii.len(),
            start <= hi < k,
            first_least(radii@.take(k as int), lo as int),
            first_greatest(radii@.take(k as int), hi as int),
        decreases radii.len() - k,
    {
        let ghost before = radii@.take(k as int);
        let ghost after = radii@.take(k + 1);
        if less(radii[k], radii[lo]) {
            lo = k;
        }
        if less(radii[hi], radii[k]) {
            hi = k;
        }
        proof {
            assert forall|j: int| 0 <= j < k implies before[j] == after[j] by {}
        }
        k += 1;
    }
    assert(radii@.take(k as int) == radii@);
    Some(RadialExtent { min: radii[lo], max: radii[hi] })
}

} // verus!
