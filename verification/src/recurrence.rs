//! What it means for a phase-space history to recur with a period, and what
//! the search for a period returns.
//!
//! How far apart two points are is measured by a function that the caller
//! supplies. The definitions here speak of the distances it returns, and so
//! pin the search down for a function whose result depends on its arguments
//! alone.

use crate::ieee::Double;
use crate::statistics::PhasePoint;
use vstd::prelude::*;

verus! {

/// A candidate period is tried on at most this many pairs of samples.
pub const MAX_PAIRS: usize = 10;

/// Whether `distance` can be called on every pair of phase-space points.
pub open spec fn always_callable<F: Fn(PhasePoint, PhasePoint) -> Double>(distance: F) -> bool {
    forall|a: PhasePoint, b: PhasePoint| call_requires(distance, (a, b))
}

/// Whether what `distance` returns depends on the pair of points alone.
pub open spec fn single_valued<F: Fn(PhasePoint, PhasePoint) -> Double>(distance: F) -> bool {
    forall|a: PhasePoint, b: PhasePoint, d1: Double, d2: Double|
        call_ensures(distance, (a, b), d1) && call_ensures(distance, (a, b), d2) ==> d1 == d2
}

/// The distance that a single-valued `distance` returns for `a` and `b`.
pub open spec fn measured<F: Fn(PhasePoint, PhasePoint) -> Double>(distance: F, a: PhasePoint, b: PhasePoint) -> Double {
    choose|d: Double| call_ensures(distance, (a, b), d)
}

/// How many pairs of samples a candidate period is tried on: at most ten,
/// and only pairs whose older sample has a full period before it.
pub open spec fn pairs_compared(len: nat, period: nat) -> nat {
    if period == 0 || len == 0 {
        0
    } else {
        let fit = (len - 1) / (period as int);
        if fit < 1 {
            0
        } else if fit - 1 < MAX_PAIRS {
            (fit - 1) as nat
        } else {
            MAX_PAIRS as nat
        }
    }
}

/// Whether the `k`-th pair compared for `period` lies within `tolerance`. The
/// pair's newer sample is `k` periods back from the newest one, its older
/// sample one period further.
pub open spec fn pair_within<F: Fn(PhasePoint, PhasePoint) -> Double>(
    history: Seq<PhasePoint>,
    distance: F,
    tolerance: Double,
    period: nat,
    k: nat,
) -> bool {
    let newer = history.len() - 1 - k * period;
    measured(distance, history[newer], history[newer - period]).le(tolerance)
}

/// Whether the history recurs with `period`: every compared pair lies within
/// `tolerance`.
pub open spec fn recurs<F: Fn(PhasePoint, PhasePoint) -> Double>(
    history: Seq<PhasePoint>,
    distance: F,
    tolerance: Double,
    period: nat,
) -> bool {
    forall|k: nat|
        k < pairs_compared(history.len(), period) ==> #[trigger] pair_within(history, distance, tolerance, period, k)
}

/// Whether `result` is what the search for a period gives: the smallest
/// period from `min_period` up to, but not including, half the history's
/// length with which the history recurs, and `None` when there is none.
pub open spec fn detects<F: Fn(PhasePoint, PhasePoint) -> Double>(
    history: Seq<PhasePoint>,
    distance: F,
    tolerance: Double,
    min_period: nat,
    result: Option<usize>,
) -> bool {
    match result {
        Some(period) => {
            &&& min_period <= period < history.len() / 2
            &&& recurs(history, distance, tolerance, period as nat)
            &&& forall|q: nat| min_period <= q < period ==> !#[trigger] recurs(history, distance, tolerance, q)
        },
        None => forall|q: nat|
            min_period <= q < history.len() / 2 ==> !#[trigger] recurs(history, distance, tolerance, q),
    }
}

/// The search has one answer.
pub proof fn lemma_detection_unique<F: Fn(PhasePoint, PhasePoint) -> Double>(
    history: Seq<PhasePoint>,
    distance: F,
    tolerance: Double,
    min_period: nat,
    first: Option<usize>,
    second: Option<usize>,
)
    requires
        detects(history, distance, tolerance, min_period, first),
        detects(history, distance, tolerance, min_period, second),
    ensures
        first == second,
{
    match (first, second) {
        (Some(p), Some(q)) => {
            if p < q {
                assert(!recurs(history, distance, tolerance, p as nat));
            } else if q < p {
                assert(!recurs(history, distance, tolerance, q as nat));
            }
        },
        (Some(p), None) => {
            assert(!recurs(history, distance, tolerance, p as nat));
        },
        (None, Some(q)) => {
            assert(!recurs(history, distance, tolerance, q as nat));
        },
        (None, None) => {},
    }
}

/// A candidate period under half the history's length is tried on at least
/// one pair, and each pair that it is tried on lies inside the history.
pub proof fn lemma_pairs_inside(len: nat, period: nat, k: nat)
    requires
        1 <= period < len / 2,
    ensures
        pairs_compared(len, period) >= 1,
        k < pairs_compared(len, period) ==> period <= len - 1 - (k + 1) * period,
{
    let fit = (len - 1) / (period as int);
    assert(fit >= 2 && fit * period <= len - 1) by (nonlinear_arith)
        requires
            fit == (len - 1) / (period as int),
            2 * period <= len - 1,
            period >= 1,
    ;
    if k < pairs_compared(len, period) {
        assert((k + 2) * period <= fit * period) by (nonlinear_arith)
            requires
                k + 2 <= fit,
                period >= 1,
        ;
        assert((k + 2) * period == (k + 1) * period + period) by (nonlinear_arith);
    }
}

/// A history that repeats itself exactly every `period` samples is found to
/// recur, with that period or a shorter one, by any search that starts at or
/// below `period` and reaches it, whenever a point is within the tolerance of
/// itself.
pub proof fn lemma_repetition_is_detected<F: Fn(PhasePoint, PhasePoint) -> Double>(
    history: Seq<PhasePoint>,
    distance: F,
    tolerance: Double,
    min_period: nat,
    period: nat,
    result: Option<usize>,
)
    requires
        1 <= min_period <= period < history.len() / 2,
        forall|i: int| 0 <= i && i + period < history.len() ==> history[i] == #[trigger] history[i + period],
        forall|a: PhasePoint| (#[trigger] measured(distance, a, a)).le(tolerance),
        detects(history, distance, tolerance, min_period, result),
    ensures
        result matches Some(found) && min_period <= found <= period,
{
    assert forall|k: nat| k < pairs_compared(history.len(), period) implies #[trigger] pair_within(
        history,
        distance,
        tolerance,
        period,
        k,
    ) by {
        lemma_pairs_inside(history.len(), period, k);
        let newer = history.len() - 1 - k * period;
        let older = newer - period;
        assert((k + 1) * period == k * period + period) by (nonlinear_arith);
        assert(history[older] == history[older + period]);
        assert(measured(distance, history[newer], history[newer]).le(tolerance));
    }
    assert(recurs(history, distance, tolerance, period));
}

/// A history that repeats itself every `period` samples and at no other
/// spacing, searched with a tolerance so tight that only equal points lie
/// within it, is found to recur with exactly that period.
pub proof fn lemma_exact_period_is_found<F: Fn(PhasePoint, PhasePoint) -> Double>(
    history: Seq<PhasePoint>,
    distance: F,
    tolerance: Double,
    min_period: nat,
    period: nat,
    result: Option<usize>,
)
    requires
        1 <= min_period <= period < history.len() / 2,
        forall|i: int, j: int|
            0 <= i < history.len() && 0 <= j < history.len() ==> (#[trigger] history[i] == #[trigger] history[j] <==> (i
                - j) % (period as int) == 0),
        forall|a: PhasePoint, b: PhasePoint| (#[trigger] measured(distance, a, b)).le(tolerance) <==> a == b,
        detects(history, distance, tolerance, min_period, result),
    ensures
        result == Some(period as usize),
        period <= usize::MAX,
{
    let len = history.len();
    assert forall|k: nat| k < pairs_compared(len, period) implies #[trigger] pair_within(
        history,
        distance,
        tolerance,
        period,
        k,
    ) by {
        lemma_pairs_inside(len, period, k);
        let newer = len - 1 - k * period;
        let older = newer - period;
        assert((k + 1) * period == k * period + period) by (nonlinear_arith);
        assert((newer - older) % (period as int) == 0) by (nonlinear_arith)
            requires
                newer - older == period,
                period >= 1,
        ;
        assert(history[newer] == history[older]);
    }
    assert(recurs(history, distance, tolerance, period));
    assert forall|q: nat| min_period <= q < period implies !#[trigger] recurs(history, distance, tolerance, q) by {
        lemma_pairs_inside(len, q, 0);
        let newer = len - 1;
        let older = newer - q;
        assert(0 * q == 0) by (nonlinear_arith);
        assert((newer - older) % (period as int) != 0) by (nonlinear_arith)
            requires
                newer - older == q,
                1 <= q < period,
        ;
        assert(history[newer] != history[older]);
        assert(!pair_within(history, distance, tolerance, q, 0));
    }
    match result {
        Some(found) => {
            if found < period {
                assert(!recurs(history, distance, tolerance, found as nat));
            } else if found > period {
                assert(!recurs(history, distance, tolerance, period));
            }
        },
        None => {
            assert(!recurs(history, distance, tolerance, period));
        },
    }
}

} // verus!
