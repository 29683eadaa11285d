//! The state of a double pendulum, its physical parameters, and the two
//! together with a clock.

use crate::ieee::Double;
use vstd::prelude::*;

verus! {

/// The bits of `1.0`.
pub const ONE_BITS: u64 = 0x3ff0_0000_0000_0000;

/// The bits of `9.81`, standard gravity in m/s².
pub const STANDARD_GRAVITY_BITS: u64 = 0x4023_9eb8_51eb_851f;

/// The number zero, with a positive sign.
pub open spec fn zero() -> Double {
    Double { bits: 0 }
}

/// Angles and angular velocities of the two arms at one instant. The angles
/// are in radians from the downward vertical, the velocities in radians per
/// second.
#[derive(Clone, Copy, Debug, PartialEq, Eq, Structural)]
pub struct PendulumState {
    pub theta1: Double,
    pub theta2: Double,
    pub omega1: Double,
    pub omega2: Double,
}

impl PendulumState {
    /// The state with the given angles and angular velocities.
    pub fn new(theta1: Double, theta2: Double, omega1: Double, omega2: Double) -> (state: Self)
        ensures
            state == (PendulumState { theta1, theta2, omega1, omega2 }),
    {
        PendulumState { theta1, theta2, omega1, omega2 }
    }

    /// The state with the given angles in which neither arm moves.
    pub fn at_rest(theta1: Double, theta2: Double) -> (state: Self)
        ensures
            state == (PendulumState { theta1, theta2, omega1: zero(), omega2: zero() }),
    {
        PendulumState::new(theta1, theta2, Double::from_bits(0), Double::from_bits(0))
    }
}

/// Masses (kg) and lengths (m) of the two arms, gravity (m/s²) and the
/// damping coefficient.
#[derive(Clone, Copy, Debug, PartialEq, Eq, Structural)]
pub struct PendulumParams {
    pub m1: Double,
    pub m2: Double,
    pub l1: Double,
    pub l2: Double,
    pub g: Double,
    pub damping: Double,
}

/// The complaint about an upper mass that is not positive.
pub open spec fn upper_mass_message() -> Seq<char> {
    "上摆质量必须为正数"@
}

/// The complaint about a lower mass that is not positive.
pub open spec fn lower_mass_message() -> Seq<char> {
    "下摆质量必须为正数"@
}

/// The complaint about an upper length that is not positive.
pub open spec fn upper_length_message() -> Seq<char> {
    "上摆长度必须为正数"@
}

/// The complaint about a lower length that is not positive.
pub open spec fn lower_length_message() -> Seq<char> {
    "下摆长度必须为正数"@
}

/// The complaint about a gravity that is not positive.
pub open spec fn gravity_message() -> Seq<char> {
    "重力加速度必须为正数"@
}

/// The complaint about a negative damping.
pub open spec fn damping_message() -> Seq<char> {
    "阻尼系数不能为负数"@
}

impl PendulumParams {
    /// Whether the parameters describe a pendulum: masses, lengths and
    /// gravity above zero, damping not below it. A NaN is neither.
    pub open spec fn valid(self) -> bool {
        &&& self.m1.gt(zero())
        &&& self.m2.gt(zero())
        &&& self.l1.gt(zero())
        &&& self.l2.gt(zero())
        &&& self.g.gt(zero())
        &&& zero().le(self.damping)
    }

    /// The message for the first parameter that is not as `valid` asks, in
    /// the order upper mass, lower mass, upper length, lower length, gravity,
    /// damping.
    pub open spec fn complaint(self) -> Seq<char> {
        if !self.m1.gt(zero()) {
            upper_mass_message()
        } else if !self.m2.gt(zero()) {
            lower_mass_message()
        } else if !self.l1.gt(zero()) {
            upper_length_message()
        } else if !self.l2.gt(zero()) {
            lower_length_message()
        } else if !self.g.gt(zero()) {
            gravity_message()
        } else {
            damping_message()
        }
    }

    /// The parameters as given; `validate` says whether they will do.
    pub fn new(m1: Double, m2: Double, l1: Double, l2: Double, g: Double, damping: Double) -> (params: Self)
        ensures
            params == (PendulumParams { m1, m2, l1, l2, g, damping }),
    {
        PendulumParams { m1, m2, l1, l2, g, damping }
    }

    /// Accepts parameters that are `valid`, and says of others what is wrong
    /// with the first offending one. Nothing is clamped or changed.
    pub fn validate(&self) -> (r: Result<(), String>)
        ensures
            r is Ok <==> self.valid(),
            r matches Err(message) ==> message@ == self.complaint(),
    {
        let zero = Double::from_bits(0);
        if !self.m1.gt(zero) {
            return Err("上摆质量必须为正数".to_string());
        }
        if !self.m2.gt(zero) {
            return Err("下摆质量必须为正数".to_string());
        }
        if !self.l1.gt(zero) {
            return Err("上摆长度必须为正数".to_string());
        }
        if !self.l2.gt(zero) {
            return Err("下摆长度必须为正数".to_string());
        }
        if !self.g.gt(zero) {
            return Err("重力加速度必须为正数".to_string());
        }
        if !zero.le(self.damping) {
            return Err("阻尼系数不能为负数".to_string());
        }
        Ok(())
    }
}

/// A pendulum with its parameters and the time, in seconds, for which it has
/// been simulated.
#[derive(Clone, Copy, Debug, PartialEq, Eq, Structural)]
pub struct DoublePendulum {
    pub state: PendulumState,
    pub params: PendulumParams,
    pub time: Double,
}

impl DoublePendulum {
    /// The pendulum in the given state, at time zero.
    pub fn new(state: PendulumState, params: PendulumParams) -> (pendulum: Self)
        ensures
            pendulum == (DoublePendulum { state, params, time: zero() }),
    {
        DoublePendulum { state, params, time: Double::from_bits(0) }
    }

    /// Puts the pendulum into `new_state` and its clock back to zero; the
    /// parameters stay.
    pub fn reset(&mut self, new_state: PendulumState)
        ensures
            final(self).state == new_state,
            final(self).time == zero(),
            final(self).params == old(self).params,
    {
        self.state = new_state;
        self.time = Double::from_bits(0);
    }
}

impl Default for PendulumParams {
    /// Two arms of 1 kg and 1 m under standard gravity, without damping.
    fn default() -> (params: Self)
        ensures
            params == (PendulumParams {
                m1: Double { bits: ONE_BITS },
                m2: Double { bits: ONE_BITS },
                l1: Double { bits: ONE_BITS },
                l2: Double { bits: ONE_BITS },
                g: Double { bits: STANDARD_GRAVITY_BITS },
                damping: zero(),
            }),
    {
        PendulumParams::new(
            Double::from_bits(ONE_BITS),
            Double::from_bits(ONE_BITS),
            Double::from_bits(ONE_BITS),
            Double::from_bits(ONE_BITS),
            Double::from_bits(STANDARD_GRAVITY_BITS),
            Double::from_bits(0),
        )
    }
}

} // verus!
