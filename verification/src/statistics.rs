//! Bounded histories of energy, trajectory and phase-space samples, and the
//! diagnostics computed over them.
//!
//! The diagnostics decide and search here; the arithmetic they need (how far
//! apart two points are, a mean, a deviation) is handed in as a function.
//! What they return is stated over what those functions return.

use crate::divergence::{
    admissible, divergence_at, divergences, divergences_upto, gap, is_neighbour, lemma_neighbour_unique,
    NEAR_DUPLICATE_BITS, NEIGHBOUR_END, NEIGHBOUR_FIRST,
};
use crate::history::{append, newest};
use crate::ieee::{Double, INFINITY_BITS};
use crate::recurrence::{always_callable, detects, pair_within, pairs_compared, recurs, single_valued, MAX_PAIRS};
use std::collections::VecDeque;
use vstd::prelude::*;

verus! {

/// The capacity of histories made by `default`.
pub const DEFAULT_HISTORY_LENGTH: usize = 2000;

/// The exponent is estimated only from a history that is this much longer
/// than the window.
pub const LYAPUNOV_MARGIN: usize = 100;

/// Total, kinetic and potential energy of one recorded step.
pub type EnergySample = (Double, Double, Double);

/// Cartesian positions `(x1, y1, x2, y2)` of the two masses.
pub type TrajectoryPoint = (Double, Double, Double, Double);

/// One snapshot `(theta1, omega1, theta2, omega2)`.
pub type PhasePoint = (Double, Double, Double, Double);

/// The total energies of the samples, in their order.
pub open spec fn totals(energy: Seq<EnergySample>) -> Seq<Double> {
    energy.map_values(|sample: EnergySample| sample.0)
}

/// Whether `m` is one of `xs` and no number among them is larger. A NaN is
/// passed over: `m` is a NaN only when all of `xs` are.
pub open spec fn is_greatest(xs: Seq<Double>, m: Double) -> bool {
    &&& xs.contains(m)
    &&& forall|i: int| 0 <= i < xs.len() && !xs[i].nan() ==> #[trigger] xs[i].le(m)
}

/// Whether `m` is one of `xs` and no number among them is smaller. A NaN is
/// passed over: `m` is a NaN only when all of `xs` are.
pub open spec fn is_least(xs: Seq<Double>, m: Double) -> bool {
    &&& xs.contains(m)
    &&& forall|i: int| 0 <= i < xs.len() && !xs[i].nan() ==> m.le(#[trigger] xs[i])
}

/// Three histories that share one capacity. Each is a queue that holds its
/// samples in the order in which they came, never more than the capacity:
/// a sample added to a full history pushes the oldest one out.
#[derive(Debug)]
pub struct PhysicsStatistics {
    energy_history: VecDeque<EnergySample>,
    trajectory_history: VecDeque<TrajectoryPoint>,
    phase_space_history: VecDeque<PhasePoint>,
    max_history_length: usize,
}

impl PhysicsStatistics {
    #[verifier::type_invariant]
    spec fn bounded(self) -> bool {
        &&& self.energy_history@.len() <= self.max_history_length
        &&& self.trajectory_history@.len() <= self.max_history_length
        &&& self.phase_space_history@.len() <= self.max_history_length
    }

    /// The energy samples held, oldest first.
    pub closed spec fn energy(self) -> Seq<EnergySample> {
        self.energy_history@
    }

    /// The trajectory points held, oldest first.
    pub closed spec fn trajectory(self) -> Seq<TrajectoryPoint> {
        self.trajectory_history@
    }

    /// The phase-space points held, oldest first.
    pub closed spec fn phase_space(self) -> Seq<PhasePoint> {
        self.phase_space_history@
    }

    /// The most samples that each history keeps.
    pub closed spec fn capacity(self) -> nat {
        self.max_history_length as nat
    }

    /// Empty histories that will keep `max_history_length` samples each.
    pub fn new(max_history_length: usize) -> (stats: Self)
        ensures
            stats.capacity() == max_history_length,
            stats.energy() == Seq::<EnergySample>::empty(),
            stats.trajectory() == Seq::<TrajectoryPoint>::empty(),
            stats.phase_space() == Seq::<PhasePoint>::empty(),
    {
        PhysicsStatistics {
            energy_history: VecDeque::new(),
            trajectory_history: VecDeque::new(),
            phase_space_history: VecDeque::new(),
            max_history_length,
        }
    }

    /// Records one energy sample, dropping the oldest when the history is full.
    pub fn add_energy_data(&mut self, total_energy: Double, kinetic_energy: Double, potential_energy: Double)
        ensures
            final(self).energy() == newest(
                old(self).energy().push((total_energy, kinetic_energy, potential_energy)),
                old(self).capacity(),
            ),
            final(self).trajectory() == old(self).trajectory(),
            final(self).phase_space() == old(self).phase_space(),
            final(self).capacity() == old(self).capacity(),
    {
        proof {
            use_type_invariant(&*self);
        }
        let mut history: VecDeque<EnergySample> = VecDeque::new();
        core::mem::swap(&mut self.energy_history, &mut history);
        append(&mut history, self.max_history_length, (total_energy, kinetic_energy, potential_energy));
        core::mem::swap(&mut self.energy_history, &mut history);
    }

    /// Records one trajectory point, dropping the oldest when the history is
    /// full.
    pub fn add_trajectory_point(&mut self, x1: Double, y1: Double, x2: Double, y2: Double)
        ensures
            final(self).trajectory() == newest(old(self).trajectory().push((x1, y1, x2, y2)), old(self).capacity()),
            final(self).energy() == old(self).energy(),
            final(self).phase_space() == old(self).phase_space(),
            final(self).capacity() == old(self).capacity(),
    {
        proof {
            use_type_invariant(&*self);
        }
        let mut history: VecDeque<TrajectoryPoint> = VecDeque::new();
        core::mem::swap(&mut self.trajectory_history, &mut history);
        append(&mut history, self.max_history_length, (x1, y1, x2, y2));
        core::mem::swap(&mut self.trajectory_history, &mut history);
    }

    /// Records one phase-space point, dropping the oldest when the history is
    /// full.
    pub fn add_phase_space_point(&mut self, theta1: Double, omega1: Double, theta2: Double, omega2: Double)
        ensures
            final(self).phase_space() == newest(
                old(self).phase_space().push((theta1, omega1, theta2, omega2)),
                old(self).capacity(),
            ),
            final(self).energy() == old(self).energy(),
            final(self).trajectory() == old(self).trajectory(),
            final(self).capacity() == old(self).capacity(),
    {
        proof {
            use_type_invariant(&*self);
        }
        let mut history: VecDeque<PhasePoint> = VecDeque::new();
        core::mem::swap(&mut self.phase_space_history, &mut history);
        append(&mut history, self.max_history_length, (theta1, omega1, theta2, omega2));
        core::mem::swap(&mut self.phase_space_history, &mut history);
    }

    /// Empties the three histories; the capacity stays.
    pub fn clear_history(&mut self)
        ensures
            final(self).energy() == Seq::<EnergySample>::empty(),
            final(self).trajectory() == Seq::<TrajectoryPoint>::empty(),
            final(self).phase_space() == Seq::<PhasePoint>::empty(),
            final(self).capacity() == old(self).capacity(),
    {
        proof {
            use_type_invariant(&*self);
        }
        self.energy_history = VecDeque::new();
        self.trajectory_history = VecDeque::new();
        self.phase_space_history = VecDeque::new();
    }

    /// The capacity that the histories were made with.
    pub fn max_history_length(&self) -> (n: usize)
        ensures
            n == self.capacity(),
    {
        self.max_history_length
    }

    /// The energy samples, oldest first.
    pub fn get_energy_history(&self) -> (history: &VecDeque<EnergySample>)
        ensures
            history@ == self.energy(),
            history@.len() <= self.capacity(),
    {
        proof {
            use_type_invariant(self);
        }
        &self.energy_history
    }

    /// The trajectory points, oldest first.
    pub fn get_trajectory_history(&self) -> (history: &VecDeque<TrajectoryPoint>)
        ensures
            history@ == self.trajectory(),
            history@.len() <= self.capacity(),
    {
        proof {
            use_type_invariant(self);
        }
        &self.trajectory_history
    }

    /// The phase-space points, oldest first.
    pub fn get_phase_space_history(&self) -> (history: &VecDeque<PhasePoint>)
        ensures
            history@ == self.phase_space(),
            history@.len() <= self.capacity(),
    {
        proof {
            use_type_invariant(self);
        }
        &self.phase_space_history
    }

    /// How many energy samples are held.
    pub fn get_history_length(&self) -> (n: usize)
        ensures
            n == self.energy().len(),
            n <= self.capacity(),
    {
        proof {
            use_type_invariant(self);
        }
        self.energy_history.len()
    }

    /// Whether any energy sample is held.
    pub fn has_data(&self) -> (r: bool)
        ensures
            r == (self.energy().len() > 0),
    {
        self.energy_history.len() > 0
    }

    /// The total energy of the newest sample.
    pub fn get_current_total_energy(&self) -> (r: Option<Double>)
        ensures
            r == (if self.energy().len() == 0 {
                None
            } else {
                Some(self.energy().last().0)
            }),
    {
        let n = self.energy_history.len();
        if n == 0 {
            None
        } else {
            Some(self.energy_history[n - 1].0)
        }
    }

    /// The kinetic energy of the newest sample.
    pub fn get_current_kinetic_energy(&self) -> (r: Option<Double>)
        ensures
            r == (if self.energy().len() == 0 {
                None
            } else {
                Some(self.energy().last().1)
            }),
    {
        let n = self.energy_history.len();
        if n == 0 {
            None
        } else {
            Some(self.energy_history[n - 1].1)
        }
    }

    /// The potential energy of the newest sample.
    pub fn get_current_potential_energy(&self) -> (r: Option<Double>)
        ensures
            r == (if self.energy().len() == 0 {
                None
            } else {
                Some(self.energy().last().2)
            }),
    {
        let n = self.energy_history.len();
        if n == 0 {
            None
        } else {
            Some(self.energy_history[n - 1].2)
        }
    }

    /// The largest total energy on record; `None` when there is no sample.
    pub fn get_max_total_energy(&self) -> (r: Option<Double>)
        ensures
            r is None <==> self.energy().len() == 0,
            r matches Some(m) ==> is_greatest(totals(self.energy()), m),
    {
        let n = self.energy_history.len();
        if n == 0 {
            return None;
        }
        let ghost xs = totals(self.energy());
        let mut best: Double = self.energy_history[0].0;
        let mut i: usize = 1;
        assert(xs.subrange(0, 1)[0] == best);
        while i < n
            invariant
                1 <= i <= n,
                n == self.energy_history@.len(),
                xs == totals(self.energy_history@),
                is_greatest(xs.subrange(0, i as int), best),
            decreases n - i,
        {
            let x: Double = self.energy_history[i].0;
            let ghost before = xs.subrange(0, i as int);
            let ghost after = xs.subrange(0, i + 1);
            let ghost witness = before.index_of(best);
            let ghost earlier = best;
            best = x.max(best);
            assert(after[i as int] == x);
            assert(after[witness] == before[witness]);
            assert forall|j: int| 0 <= j < after.len() && !after[j].nan() implies #[trigger] after[j].le(best) by {
                if j < i {
                    assert(after[j] == before[j]);
                    assert(before[j].le(earlier));
                }
            }
            i = i + 1;
        }
        assert(xs.subrange(0, n as int) == xs);
        Some(best)
    }

    /// The smallest total energy on record; `None` when there is no sample.
    pub fn get_min_total_energy(&self) -> (r: Option<Double>)
        ensures
            r is None <==> self.energy().len() == 0,
            r matches Some(m) ==> is_least(totals(self.energy()), m),
    {
        let n = self.energy_history.len();
        if n == 0 {
            return None;
        }
        let ghost xs = totals(self.energy());
        let mut best: Double = self.energy_history[0].0;
        let mut i: usize = 1;
        assert(xs.subrange(0, 1)[0] == best);
        while i < n
            invariant
                1 <= i <= n,
                n == self.energy_history@.len(),
                xs == totals(self.energy_history@),
                is_least(xs.subrange(0, i as int), best),
            decreases n - i,
        {
            let x: Double = self.energy_history[i].0;
            let ghost before = xs.subrange(0, i as int);
            let ghost after = xs.subrange(0, i + 1);
            let ghost witness = before.index_of(best);
            let ghost earlier = best;
            best = x.min(best);
            assert(after[i as int] == x);
            assert(after[witness] == before[witness]);
            assert forall|j: int| 0 <= j < after.len() && !after[j].nan() implies best.le(#[trigger] after[j]) by {
                if j < i {
                    assert(after[j] == before[j]);
                    assert(earlier.le(before[j]));
                }
            }
            i = i + 1;
        }
        assert(xs.subrange(0, n as int) == xs);
        Some(best)
    }

    /// The total energies on record, oldest first.
    fn total_energies(&self) -> (xs: Vec<Double>)
        ensures
            xs@ == totals(self.energy()),
    {
        let mut xs: Vec<Double> = Vec::new();
        let mut i: usize = 0;
        while i < self.energy_history.len()
            invariant
                i <= self.energy_history@.len(),
                xs@ == totals(self.energy_history@).subrange(0, i as int),
            decreases self.energy_history@.len() - i,
        {
            xs.push(self.energy_history[i].0);
            i = i + 1;
        }
        xs
    }

    /// The average total energy, which `mean` computes from the total
    /// energies on record, oldest first; `None` when there is no sample.
    pub fn get_average_total_energy<M: Fn(&Vec<Double>) -> Double>(&self, mean: M) -> (r: Option<Double>)
        requires
            forall|xs: Vec<Double>| xs@.len() > 0 ==> call_requires(mean, (&xs,)),
        ensures
            r is Some <==> self.energy().len() > 0,
            r matches Some(average) ==> exists|xs: Vec<Double>|
                xs@ == totals(self.energy()) && call_ensures(mean, (&xs,), average),
    {
        if self.energy_history.len() == 0 {
            return None;
        }
        let xs = self.total_energies();
        Some(mean(&xs))
    }

    /// How well energy is conserved: the spread of the total energies on
    /// record, which `deviation` computes from them as their population
    /// standard deviation (a small value means good conservation); `None`
    /// with fewer than two samples.
    pub fn get_energy_conservation<M: Fn(&Vec<Double>) -> Double>(&self, deviation: M) -> (r: Option<Double>)
        requires
            forall|xs: Vec<Double>| xs@.len() >= 2 ==> call_requires(deviation, (&xs,)),
        ensures
            r is Some <==> self.energy().len() >= 2,
            r matches Some(spread) ==> exists|xs: Vec<Double>|
                xs@ == totals(self.energy()) && call_ensures(deviation, (&xs,), spread),
    {
        if self.energy_history.len() < 2 {
            return None;
        }
        let xs = self.total_energies();
        Some(deviation(&xs))
    }

    /// Whether the phase-space history recurs with `period`.
    fn recurs_with<F: Fn(PhasePoint, PhasePoint) -> Double>(&self, distance: &F, tolerance: Double, period: usize) -> (r:
        bool)
        requires
            always_callable(*distance),
            period >= 1,
        ensures
            single_valued(*distance) ==> r == recurs(self.phase_space(), *distance, tolerance, period as nat),
    {
        let len = self.phase_space_history.len();
        if len == 0 {
            return true;
        }
        let fit: usize = (len - 1) / period;
        let count: usize = if fit < 1 { 0 } else if fit - 1 < MAX_PAIRS { fit - 1 } else { MAX_PAIRS };
        let ghost history = self.phase_space();
        let mut k: usize = 0;
        let mut newer: usize = len - 1;
        while k < count
            invariant
                always_callable(*distance),
                history == self.phase_space_history@,
                len == history.len(),
                period >= 1,
                k <= count,
                count == pairs_compared(len as nat, period as nat),
                fit == (len - 1) / (period as int),
                newer == len - 1 - k * period,
                single_valued(*distance) ==> forall|i: nat|
                    i < k ==> #[trigger] pair_within(history, *distance, tolerance, period as nat, i),
            decreases count - k,
        {
            assert((k + 2) * period <= len - 1 && (k + 2) * period == k * period + 2 * period) by (nonlinear_arith)
                requires
                    k + 2 <= fit,
                    fit == (len - 1) / (period as int),
                    period >= 1,
                    len >= 1,
            ;
            let older: usize = newer - period;
            let d = distance(self.phase_space_history[newer], self.phase_space_history[older]);
            assert(single_valued(*distance) ==> d.le(tolerance) == pair_within(
                history,
                *distance,
                tolerance,
                period as nat,
                k as nat,
            ));
            if !d.le(tolerance) {
                return false;
            }
            newer = older;
            k = k + 1;
            assert(newer == len - 1 - k * period) by (nonlinear_arith)
                requires
                    newer == len - 1 - (k - 1) * period - period,
            ;
        }
        true
    }

    /// Looks for the smallest period, from `min_period` up to but not
    /// including half the history's length, with which the phase-space
    /// history recurs: every compared pair of samples one period apart is no
    /// further apart than `tolerance`, as `distance` measures it. At most ten
    /// pairs are compared for a period, from the newest sample backwards.
    /// `None` when no period in that range will do, as in a history of fewer
    /// than twice `min_period` samples.
    ///
    /// A period of zero is no period: a search from `min_period` 0 finds
    /// none, whatever the history holds. From 1 on, the result is pinned down
    /// for a `distance` that is single-valued, as a computed distance is.
    pub fn detect_periodicity<F: Fn(PhasePoint, PhasePoint) -> Double>(
        &self,
        tolerance: Double,
        min_period: usize,
        distance: F,
    ) -> (r: Option<usize>)
        requires
            always_callable(distance),
        ensures
            min_period == 0 ==> r is None,
            min_period >= 1 && single_valued(distance) ==> detects(
                self.phase_space(),
                distance,
                tolerance,
                min_period as nat,
                r,
            ),
            r matches Some(period) ==> 1 <= min_period <= period < self.phase_space().len() / 2,
    {
        let half: usize = self.phase_space_history.len() / 2;
        if min_period == 0 {
            return None;
        }
        let mut period: usize = min_period;
        while period < half
            invariant
                always_callable(distance),
                half == self.phase_space().len() / 2,
                1 <= min_period <= period,
                single_valued(distance) ==> forall|q: nat|
                    min_period <= q < period ==> !#[trigger] recurs(self.phase_space(), distance, tolerance, q),
            decreases half - period,
        {
            if self.recurs_with(&distance, tolerance, period) {
                return Some(period);
            }
            period = period + 1;
        }
        None
    }

    /// The nearest neighbour of the sample at `i`, with its distance.
    fn nearest_neighbour<F: Fn(PhasePoint, PhasePoint) -> Double>(&self, distance: &F, i: usize) -> (r: Option<
        (usize, Double),
    >)
        requires
            always_callable(*distance),
            i < self.phase_space().len(),
        ensures
            r matches Some((j, _)) ==> i + NEIGHBOUR_FIRST <= j < self.phase_space().len(),
            single_valued(*distance) ==> match r {
                Some((j, d)) => is_neighbour(self.phase_space(), *distance, i as int, j as int) && d == gap(
                    self.phase_space(),
                    *distance,
                    i as int,
                    j as int,
                ),
                None => forall|j: int| !is_neighbour(self.phase_space(), *distance, i as int, j),
            },
    {
        let len = self.phase_space_history.len();
        let first: usize = if len - i > NEIGHBOUR_FIRST { i + NEIGHBOUR_FIRST } else { len };
        let end: usize = if len - i > NEIGHBOUR_END { i + NEIGHBOUR_END } else { len };
        let ghost history = self.phase_space();
        let mut best: Option<(usize, Double)> = None;
        let mut j: usize = first;
        while j < end
            invariant
                always_callable(*distance),
                history == self.phase_space_history@,
                len == history.len(),
                i < len,
                first <= j <= end <= len,
                first == (if len - i > NEIGHBOUR_FIRST { i + NEIGHBOUR_FIRST } else { len as int }),
                end == (if len - i > NEIGHBOUR_END { i + NEIGHBOUR_END } else { len as int }),
                best matches Some((b, _)) ==> first <= b < j,
                single_valued(*distance) ==> match best {
                    Some((b, d)) => {
                        &&& d == gap(history, *distance, i as int, b as int)
                        &&& admissible(d)
                        &&& forall|k: int|
                            first <= k < j && admissible(#[trigger] gap(history, *distance, i as int, k)) ==> if k < b {
                                d.lt(gap(history, *distance, i as int, k))
                            } else {
                                !gap(history, *distance, i as int, k).lt(d)
                            }
                    },
                    None => forall|k: int| first <= k < j ==> !admissible(#[trigger] gap(history, *distance, i as int, k)),
                },
            decreases end - j,
        {
            let d = distance(self.phase_space_history[i], self.phase_space_history[j]);
            assert(single_valued(*distance) ==> d == gap(history, *distance, i as int, j as int));
            let least: Double = match best {
                Some((_, m)) => m,
                None => Double::from_bits(INFINITY_BITS),
            };
            if d.lt(least) && d.gt(Double::from_bits(NEAR_DUPLICATE_BITS)) {
                best = Some((j, d));
            }
            j = j + 1;
        }
        best
    }

    /// The pairs of distances from which the exponent is estimated. For each
    /// sample that has a follower `window_size` steps later, its nearest
    /// neighbour under `distance` is sought among the samples 10 to 49 steps
    /// after it; where there is one, and the two followers are not
    /// duplicates, the pair holds the distance to the neighbour and the
    /// distance between the followers. The pairs are pinned down for a
    /// `distance` that is single-valued.
    pub fn divergence_pairs<F: Fn(PhasePoint, PhasePoint) -> Double>(&self, window_size: usize, distance: F) -> (pairs:
        Vec<(Double, Double)>)
        requires
            always_callable(distance),
        ensures
            single_valued(distance) ==> pairs@ == divergences(self.phase_space(), distance, window_size as nat),
    {
        let mut pairs: Vec<(Double, Double)> = Vec::new();
        let len = self.phase_space_history.len();
        if len < window_size {
            return pairs;
        }
        let count: usize = len - window_size;
        let ghost history = self.phase_space();
        let mut i: usize = 0;
        while i < count
            invariant
                always_callable(distance),
                history == self.phase_space_history@,
                len == history.len(),
                count == len - window_size,
                i <= count,
                single_valued(distance) ==> pairs@ == divergences_upto(history, distance, window_size as nat, i as nat),
            decreases count - i,
        {
            let ghost before = pairs@;
            match self.nearest_neighbour(&distance, i) {
                Some((j, d)) => {
                    proof {
                        if single_valued(distance) {
                            let chosen = choose|c: int| is_neighbour(history, distance, i as int, c);
                            lemma_neighbour_unique(history, distance, i as int, j as int, chosen);
                        }
                    }
                    if window_size < len - j {
                        let advanced = distance(
                            self.phase_space_history[i + window_size],
                            self.phase_space_history[j + window_size],
                        );
                        assert(single_valued(distance) ==> advanced == gap(
                            history,
                            distance,
                            i + window_size,
                            j + window_size,
                        ));
                        if advanced.gt(Double::from_bits(NEAR_DUPLICATE_BITS)) {
                            pairs.push((d, advanced));
                        }
                    }
                },
                None => {},
            }
            assert(single_valued(distance) ==> pairs@ == (match divergence_at(
                history,
                distance,
                window_size as nat,
                i as int,
            ) {
                Some(pair) => before.push(pair),
                None => before,
            }));
            i = i + 1;
        }
        pairs
    }

    /// Estimates the largest Lyapunov exponent from the phase-space history
    /// by following nearest neighbours: a coarse figure from one trajectory,
    /// not a computation in tangent space. `mean_rate` turns the pairs of
    /// distances (see `divergence_pairs`) into the estimate: the mean, over
    /// the pairs, of the logarithm of the second distance over the first,
    /// divided by the window. There is no estimate from a history shorter
    /// than the window and 100 more samples, nor without a pair.
    pub fn estimate_lyapunov_exponent<F, G>(&self, window_size: usize, distance: F, mean_rate: G) -> (r: Option<Double>)
        where
            F: Fn(PhasePoint, PhasePoint) -> Double,
            G: Fn(&Vec<(Double, Double)>, usize) -> Double,
        requires
            always_callable(distance),
            forall|pairs: Vec<(Double, Double)>| pairs@.len() > 0 ==> call_requires(mean_rate, (&pairs, window_size)),
        ensures
            r is Some ==> self.phase_space().len() >= window_size + LYAPUNOV_MARGIN,
            single_valued(distance) ==> (r is Some <==> self.phase_space().len() >= window_size + LYAPUNOV_MARGIN
                && divergences(self.phase_space(), distance, window_size as nat).len() > 0),
            single_valued(distance) ==> (r matches Some(estimate) ==> exists|pairs: Vec<(Double, Double)>|
                pairs@ == divergences(self.phase_space(), distance, window_size as nat) && call_ensures(
                    mean_rate,
                    (&pairs, window_size),
                    estimate,
                )),
    {
        let len = self.phase_space_history.len();
        if len < LYAPUNOV_MARGIN || len - LYAPUNOV_MARGIN < window_size {
            return None;
        }
        let pairs = self.divergence_pairs(window_size, distance);
        if pairs.len() == 0 {
            return None;
        }
        Some(mean_rate(&pairs, window_size))
    }
}

impl Clone for PhysicsStatistics {
    fn clone(&self) -> (copy: Self)
        ensures
            copy.energy() == self.energy(),
            copy.trajectory() == self.trajectory(),
            copy.phase_space() == self.phase_space(),
            copy.capacity() == self.capacity(),
    {
        proof {
            use_type_invariant(self);
        }
        PhysicsStatistics {
            energy_history: duplicate(&self.energy_history),
            trajectory_history: duplicate(&self.trajectory_history),
            phase_space_history: duplicate(&self.phase_space_history),
            max_history_length: self.max_history_length,
        }
    }
}

/// A queue with the same items in the same order.
fn duplicate<T: Copy>(items: &VecDeque<T>) -> (copy: VecDeque<T>)
    ensures
        copy@ == items@,
{
    let mut copy: VecDeque<T> = VecDeque::new();
    let mut i: usize = 0;
    while i < items.len()
        invariant
            i <= items@.len(),
            copy@ == items@.subrange(0, i as int),
        decreases items@.len() - i,
    {
        copy.push_back(items[i]);
        i = i + 1;
    }
    copy
}

impl Default for PhysicsStatistics {
    /// Empty histories that keep 2000 samples each.
    fn default() -> (stats: Self)
        ensures
            stats.capacity() == DEFAULT_HISTORY_LENGTH,
            stats.energy() == Seq::<EnergySample>::empty(),
            stats.trajectory() == Seq::<TrajectoryPoint>::empty(),
            stats.phase_space() == Seq::<PhasePoint>::empty(),
    {
        PhysicsStatistics::new(DEFAULT_HISTORY_LENGTH)
    }
}

} // verus!
