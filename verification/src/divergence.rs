//! The pairs of distances from which the largest Lyapunov exponent is
//! estimated: for each reference sample its nearest neighbour, and how far
//! the two have moved apart a window later.

use crate::ieee::{Double, INFINITY_BITS};
use crate::recurrence::measured;
use crate::statistics::PhasePoint;
use vstd::prelude::*;

verus! {

/// The bits of `1e-8`. Two samples no further apart than this are taken for
/// the same point.
pub const NEAR_DUPLICATE_BITS: u64 = 0x3e45_798e_e230_8c3a;

/// A neighbour is sought from this many samples after the reference sample.
pub const NEIGHBOUR_FIRST: usize = 10;

/// A neighbour is sought up to, but not including, this many samples after
/// the reference sample.
pub const NEIGHBOUR_END: usize = 50;

/// `1e-8`, the distance up to which two samples count as duplicates.
pub open spec fn near_duplicate() -> Double {
    Double { bits: NEAR_DUPLICATE_BITS }
}

/// Positive infinity.
pub open spec fn infinity() -> Double {
    Double { bits: INFINITY_BITS }
}

/// Whether a distance can make a neighbour: a finite number over `1e-8`.
pub open spec fn admissible(d: Double) -> bool {
    d.gt(near_duplicate()) && d.lt(infinity())
}

/// The distance between the samples at `i` and `j`.
pub open spec fn gap<F: Fn(PhasePoint, PhasePoint) -> Double>(
    history: Seq<PhasePoint>,
    distance: F,
    i: int,
    j: int,
) -> Double {
    measured(distance, history[i], history[j])
}

/// Whether the sample at `j` is looked at as a neighbour of the one at `i`:
/// it came 10 to 49 samples later.
pub open spec fn is_candidate(len: nat, i: int, j: int) -> bool {
    i + NEIGHBOUR_FIRST <= j < i + NEIGHBOUR_END && j < len
}

/// Whether the sample at `j` is the nearest neighbour of the one at `i`: a
/// candidate at an admissible distance, nearer than every earlier such
/// candidate and no further than any later one.
pub open spec fn is_neighbour<F: Fn(PhasePoint, PhasePoint) -> Double>(
    history: Seq<PhasePoint>,
    distance: F,
    i: int,
    j: int,
) -> bool {
    &&& is_candidate(history.len(), i, j)
    &&& admissible(gap(history, distance, i, j))
    &&& forall|k: int|
        is_candidate(history.len(), i, k) && admissible(#[trigger] gap(history, distance, i, k)) ==> if k < j {
            gap(history, distance, i, j).lt(gap(history, distance, i, k))
        } else {
            !gap(history, distance, i, k).lt(gap(history, distance, i, j))
        }
}

/// What the reference sample at `i` adds to the estimate: the distance to its
/// nearest neighbour, and the distance between the two samples that follow
/// them `window` steps later. Nothing when there is no neighbour, when the
/// neighbour's follower is past the end of the history, or when the followers
/// are duplicates.
pub open spec fn divergence_at<F: Fn(PhasePoint, PhasePoint) -> Double>(
    history: Seq<PhasePoint>,
    distance: F,
    window: nat,
    i: int,
) -> Option<(Double, Double)> {
    if exists|j: int| is_neighbour(history, distance, i, j) {
        let j = choose|j: int| is_neighbour(history, distance, i, j);
        let advanced = gap(history, distance, i + window, j + window);
        if j + window < history.len() && advanced.gt(near_duplicate()) {
            Some((gap(history, distance, i, j), advanced))
        } else {
            None
        }
    } else {
        None
    }
}

/// The pairs of distances that the reference samples below `n` add, in the
/// order of the samples.
pub open spec fn divergences_upto<F: Fn(PhasePoint, PhasePoint) -> Double>(
    history: Seq<PhasePoint>,
    distance: F,
    window: nat,
    n: nat,
) -> Seq<(Double, Double)>
    decreases n,
{
    if n == 0 {
        Seq::empty()
    } else {
        let earlier = divergences_upto(history, distance, window, (n - 1) as nat);
        match divergence_at(history, distance, window, n - 1) {
            Some(pair) => earlier.push(pair),
            None => earlier,
        }
    }
}

/// The pairs of distances from which the exponent is estimated: one for each
/// reference sample that has a follower `window` steps later and adds
/// something.
pub open spec fn divergences<F: Fn(PhasePoint, PhasePoint) -> Double>(
    history: Seq<PhasePoint>,
    distance: F,
    window: nat,
) -> Seq<(Double, Double)> {
    if history.len() >= window {
        divergences_upto(history, distance, window, (history.len() - window) as nat)
    } else {
        Seq::empty()
    }
}

/// A sample has at most one nearest neighbour.
pub proof fn lemma_neighbour_unique<F: Fn(PhasePoint, PhasePoint) -> Double>(
    history: Seq<PhasePoint>,
    distance: F,
    i: int,
    j1: int,
    j2: int,
)
    requires
        is_neighbour(history, distance, i, j1),
        is_neighbour(history, distance, i, j2),
    ensures
        j1 == j2,
{
    let d1 = gap(history, distance, i, j1);
    let d2 = gap(history, distance, i, j2);
    if j1 < j2 {
        assert(d2.lt(d1));
        assert(!d2.lt(d1));
    } else if j2 < j1 {
        assert(d1.lt(d2));
        assert(!d1.lt(d2));
    }
}

} // verus!
