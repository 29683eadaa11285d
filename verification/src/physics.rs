//! The integrator's time step and the rule by which an adaptive step is
//! accepted, grown or shrunk. The integration itself is arithmetic on the
//! machine's numbers and is done by whoever drives the engine.

use crate::ieee::Double;
use vstd::prelude::*;

verus! {

/// The bits of `1e-6`, the shortest time step that can be set.
pub const MIN_TIME_STEP_BITS: u64 = 0x3eb0_c6f7_a0b5_ed8d;

/// The bits of `0.001`, the time step of `PhysicsEngine::default`.
pub const DEFAULT_TIME_STEP_BITS: u64 = 0x3f50_624d_d2f1_a9fc;

/// The bits of `1e-8`, the floor under an adaptive step.
pub const ADAPTIVE_FLOOR_BITS: u64 = 0x3e45_798e_e230_8c3a;

/// The bits of `1e-2`, the cap on an adaptive step.
pub const ADAPTIVE_CAP_BITS: u64 = 0x3f84_7ae1_47ae_147b;

/// The bits of `1e-10`: a determinant of the mass matrix, or an energy, of
/// smaller magnitude is not divided by.
pub const DIVISOR_FLOOR_BITS: u64 = 0x3ddb_7cdf_d9d7_bdbb;

/// The bits of `-1e-10`.
pub const NEGATIVE_DIVISOR_FLOOR_BITS: u64 = 0xbddb_7cdf_d9d7_bdbb;

/// `1e-10`.
pub open spec fn divisor_floor() -> Double {
    Double { bits: DIVISOR_FLOOR_BITS }
}

/// `1e-6`.
pub open spec fn min_time_step() -> Double {
    Double { bits: MIN_TIME_STEP_BITS }
}

/// `1e-8`.
pub open spec fn adaptive_floor() -> Double {
    Double { bits: ADAPTIVE_FLOOR_BITS }
}

/// `1e-2`.
pub open spec fn adaptive_cap() -> Double {
    Double { bits: ADAPTIVE_CAP_BITS }
}

/// The integrator's one setting: the length of a step in seconds.
#[derive(Clone, Copy, Debug)]
pub struct PhysicsEngine {
    dt: Double,
}

impl PhysicsEngine {
    /// The time step.
    pub closed spec fn time_step(self) -> Double {
        self.dt
    }

    /// An engine with the given time step, taken as it is.
    pub fn new(dt: Double) -> (engine: Self)
        ensures
            engine.time_step() == dt,
    {
        PhysicsEngine { dt }
    }

    /// Sets the time step to `dt`, or to `1e-6` where `dt` is smaller or a
    /// NaN. Afterwards the time step is a number and at least `1e-6`.
    pub fn set_dt(&mut self, dt: Double)
        ensures
            final(self).time_step() == dt.max(min_time_step()),
            min_time_step().le(final(self).time_step()),
    {
        self.dt = dt.max(Double::from_bits(MIN_TIME_STEP_BITS));
    }

    /// The time step.
    pub fn dt(&self) -> (dt: Double)
        ensures
            dt == self.time_step(),
    {
        self.dt
    }
}

impl Default for PhysicsEngine {
    /// An engine that steps by a millisecond.
    fn default() -> (engine: Self)
        ensures
            engine.time_step() == (Double { bits: DEFAULT_TIME_STEP_BITS }),
    {
        PhysicsEngine::new(Double::from_bits(DEFAULT_TIME_STEP_BITS))
    }
}

/// The determinant by which the equations of motion divide. One of magnitude
/// under `1e-10` is replaced by `1e-10` with the determinant's sign, a zero
/// counting as positive; any other, a NaN too, is kept. This floor keeps the
/// division finite near a singular mass matrix; it is a numerical guard, not
/// a physical limit, and the energy error rises where it acts.
pub open spec fn stabilized(det: Double) -> Double {
    if det.abs().lt(divisor_floor()) {
        if det.lt(Double { bits: 0 }) {
            Double { bits: NEGATIVE_DIVISOR_FLOOR_BITS }
        } else {
            divisor_floor()
        }
    } else {
        det
    }
}

/// Keeps the determinant of the mass matrix away from zero: see `stabilized`.
/// The result, unless it is a NaN, has magnitude `1e-10` or more.
pub fn clamp_determinant(det: Double) -> (r: Double)
    ensures
        r == stabilized(det),
        !det.nan() ==> divisor_floor().le(r.abs()),
        det.nan() ==> r == det,
{
    if det.abs().lt(Double::from_bits(DIVISOR_FLOOR_BITS)) {
        if det.lt(Double::from_bits(0)) {
            Double::from_bits(NEGATIVE_DIVISOR_FLOOR_BITS)
        } else {
            Double::from_bits(DIVISOR_FLOOR_BITS)
        }
    } else {
        det
    }
}

/// Whether a step's energy error is reported relative to the energy before
/// the step: it is when that energy has magnitude over `1e-10`. Otherwise,
/// and for a NaN, the error is the plain difference of the two energies.
pub fn energy_error_is_relative(initial_energy: Double) -> (r: bool)
    ensures
        r == initial_energy.abs().gt(divisor_floor()),
{
    initial_energy.abs().gt(Double::from_bits(DIVISOR_FLOOR_BITS))
}

/// The largest of four magnitudes, a NaN giving way to a number: the error
/// of an adaptive trial, from the four differences between the state after
/// the whole step and the state after the two half steps.
pub fn largest_magnitude(a: Double, b: Double, c: Double, d: Double) -> (r: Double)
    ensures
        r == a.abs().max(b.abs()).max(c.abs()).max(d.abs()),
        r == a.abs() || r == b.abs() || r == c.abs() || r == d.abs(),
        !a.nan() && !b.nan() && !c.nan() && !d.nan() ==> a.abs().le(r) && b.abs().le(r) && c.abs().le(r) && d.abs().le(
            r,
        ),
{
    a.abs().max(b.abs()).max(c.abs()).max(d.abs())
}

/// What the adaptive integrator does after one trial. A trial advances the
/// state once by the whole step and once by two half steps, and measures the
/// error as the largest difference between the two results.
#[derive(Clone, Copy, Debug, PartialEq, Eq, Structural)]
pub enum StepOutcome {
    /// The error is within tolerance: the result of the two half steps is
    /// taken, and the next trial starts from the step given here.
    Refined(Double),
    /// The error is too large but the step is at its floor: the result of the
    /// whole step is taken all the same, with the step given here.
    Forced(Double),
    /// The error is too large: the trial is repeated with the step given
    /// here.
    Retry(Double),
}

/// The outcome of a trial made with step `dt` that measured `error`. The
/// caller supplies the three products of the rule: `tenth` is a tenth of
/// the tolerance, `grown` is `dt` times 1.5, and `halved` is half of `dt`.
///
/// An error under the tolerance is accepted; the step grows to `grown`, but
/// to no more than `1e-2`, when the error is under `tenth` and `dt` is under
/// `1e-2`. Any other error, a NaN too, shrinks the step to `halved` but to
/// no less than `1e-8`; once it is there, the trial is accepted as it is.
pub open spec fn outcome(
    dt: Double,
    error: Double,
    tolerance: Double,
    tenth: Double,
    grown: Double,
    halved: Double,
) -> StepOutcome {
    if error.lt(tolerance) {
        if error.lt(tenth) && dt.lt(adaptive_cap()) {
            StepOutcome::Refined(grown.min(adaptive_cap()))
        } else {
            StepOutcome::Refined(dt)
        }
    } else {
        let shrunk = halved.max(adaptive_floor());
        if shrunk.le(adaptive_floor()) {
            StepOutcome::Forced(shrunk)
        } else {
            StepOutcome::Retry(shrunk)
        }
    }
}

/// Assesses one trial of the adaptive integrator: see `outcome`.
pub fn assess_trial(dt: Double, error: Double, tolerance: Double, tenth: Double, grown: Double, halved: Double) -> (r:
    StepOutcome)
    ensures
        r == outcome(dt, error, tolerance, tenth, grown, halved),
        r matches StepOutcome::Refined(next) ==> next == dt || next.le(adaptive_cap()),
        r matches StepOutcome::Retry(next) ==> adaptive_floor().lt(next),
        r matches StepOutcome::Forced(next) ==> next == adaptive_floor(),
{
    let cap = Double::from_bits(ADAPTIVE_CAP_BITS);
    let floor = Double::from_bits(ADAPTIVE_FLOOR_BITS);
    if error.lt(tolerance) {
        if error.lt(tenth) && dt.lt(cap) {
            StepOutcome::Refined(grown.min(cap))
        } else {
            StepOutcome::Refined(dt)
        }
    } else {
        let shrunk = halved.max(floor);
        if shrunk.le(floor) {
            StepOutcome::Forced(shrunk)
        } else {
            StepOutcome::Retry(shrunk)
        }
    }
}

} // verus!
