//! A small library of named starting conditions.

use crate::ieee::Double;
use crate::pendulum::{PendulumParams, PendulumState, ONE_BITS, STANDARD_GRAVITY_BITS};
use vstd::prelude::*;

verus! {

/// How many presets the library holds.
pub const PRESET_COUNT: usize = 8;

/// A named pair of starting state and parameters.
#[derive(Debug)]
pub struct PendulumPreset {
    pub name: String,
    pub description: String,
    pub initial_state: PendulumState,
    pub params: PendulumParams,
}

/// A preset with its texts as sequences of characters.
pub struct PresetModel {
    pub name: Seq<char>,
    pub description: Seq<char>,
    pub initial_state: PendulumState,
    pub params: PendulumParams,
}

impl View for PendulumPreset {
    type V = PresetModel;

    open spec fn view(&self) -> PresetModel {
        PresetModel {
            name: self.name@,
            description: self.description@,
            initial_state: self.initial_state,
            params: self.params,
        }
    }
}

impl PendulumPreset {
    /// A preset of the caller's own.
    pub fn new(name: String, description: String, initial_state: PendulumState, params: PendulumParams) -> (preset:
        Self)
        ensures
            preset@ == (PresetModel { name: name@, description: description@, initial_state, params }),
    {
        PendulumPreset { name, description, initial_state, params }
    }
}

impl Clone for PendulumPreset {
    fn clone(&self) -> (copy: Self)
        ensures
            copy@ == self@,
    {
        PendulumPreset {
            name: self.name.clone(),
            description: self.description.clone(),
            initial_state: self.initial_state,
            params: self.params,
        }
    }
}

/// The groups into which the presets are sorted. A preset may be in more
/// than one.
#[derive(Clone, Copy, Debug, PartialEq, Eq, Structural)]
pub enum PresetCategory {
    Basic,
    Chaotic,
    Physical,
    Extreme,
}

/// A state from the four patterns of its angles and angular velocities.
pub open spec fn state_of(theta1: u64, theta2: u64, omega1: u64, omega2: u64) -> PendulumState {
    PendulumState {
        theta1: Double { bits: theta1 },
        theta2: Double { bits: theta2 },
        omega1: Double { bits: omega1 },
        omega2: Double { bits: omega2 },
    }
}

/// Parameters from the six patterns.
pub open spec fn params_of(m1: u64, m2: u64, l1: u64, l2: u64, g: u64, damping: u64) -> PendulumParams {
    PendulumParams {
        m1: Double { bits: m1 },
        m2: Double { bits: m2 },
        l1: Double { bits: l1 },
        l2: Double { bits: l2 },
        g: Double { bits: g },
        damping: Double { bits: damping },
    }
}

/// Unit masses and lengths under standard gravity, without damping.
pub open spec fn standard_params() -> PendulumParams {
    params_of(ONE_BITS, ONE_BITS, ONE_BITS, ONE_BITS, STANDARD_GRAVITY_BITS, 0)
}

/// The bits of `-0.2`.
pub const MINUS_FIFTH_BITS: u64 = 0xbfc9_9999_9999_999a;

/// The bits of `-0.1`.
pub const MINUS_TENTH_BITS: u64 = 0xbfb9_9999_9999_999a;

/// The bits of `-π/2`, a quarter turn upwards.
pub const MINUS_HALF_PI_BITS: u64 = 0xbff9_21fb_5444_2d18;

/// The bits of `-π/3`.
pub const MINUS_THIRD_PI_BITS: u64 = 0xbff0_c152_382d_7365;

/// The bits of `-π/4`.
pub const MINUS_QUARTER_PI_BITS: u64 = 0xbfe9_21fb_5444_2d18;

/// The bits of `-π · 0.7`.
pub const MINUS_PI_SEVEN_TENTHS_BITS: u64 = 0xc001_97c9_87c9_52c4;

/// The bits of `-π · 0.8`.
pub const MINUS_PI_EIGHT_TENTHS_BITS: u64 = 0xc004_1b2f_769c_f0e0;

/// The bits of `-0.5`.
pub const MINUS_HALF_BITS: u64 = 0xbfe0_0000_0000_0000;

/// The bits of `0.1`.
pub const TENTH_BITS: u64 = 0x3fb9_9999_9999_999a;

/// The bits of `0.8`.
pub const FOUR_FIFTHS_BITS: u64 = 0x3fe9_9999_9999_999a;

/// The bits of `1.5`.
pub const THREE_HALVES_BITS: u64 = 0x3ff8_0000_0000_0000;

/// The bits of `1.62`, gravity on the Moon in m/s².
pub const LUNAR_GRAVITY_BITS: u64 = 0x3ff9_eb85_1eb8_51ec;

/// The bits of `3.0`.
pub const THREE_BITS: u64 = 0x4008_0000_0000_0000;

/// The bits of `4.0`.
pub const FOUR_BITS: u64 = 0x4010_0000_0000_0000;

/// The presets of the library, in their order.
pub open spec fn library() -> Seq<PresetModel> {
    seq![
        PresetModel {
            name: "Small Angle"@,
            description: "Small angle oscillation - predictable behavior"@,
            initial_state: state_of(MINUS_FIFTH_BITS, MINUS_TENTH_BITS, 0, 0),
            params: standard_params(),
        },
        PresetModel {
            name: "Classic Chaos"@,
            description: "Classic chaotic motion with equal masses"@,
            initial_state: state_of(MINUS_HALF_PI_BITS, MINUS_THIRD_PI_BITS, 0, 0),
            params: standard_params(),
        },
        PresetModel {
            name: "High Energy"@,
            description: "High energy chaotic motion - complex trajectories"@,
            initial_state: state_of(MINUS_PI_SEVEN_TENTHS_BITS, MINUS_PI_EIGHT_TENTHS_BITS, ONE_BITS, MINUS_HALF_BITS),
            params: standard_params(),
        },
        PresetModel {
            name: "Unequal Masses"@,
            description: "Heavy bottom mass creates interesting dynamics"@,
            initial_state: state_of(MINUS_THIRD_PI_BITS, MINUS_QUARTER_PI_BITS, 0, 0),
            params: params_of(ONE_BITS, THREE_BITS, ONE_BITS, ONE_BITS, STANDARD_GRAVITY_BITS, 0),
        },
        PresetModel {
            name: "Unequal Lengths"@,
            description: "Different arm lengths create asymmetric motion"@,
            initial_state: state_of(MINUS_QUARTER_PI_BITS, MINUS_THIRD_PI_BITS, 0, 0),
            params: params_of(ONE_BITS, ONE_BITS, THREE_HALVES_BITS, FOUR_FIFTHS_BITS, STANDARD_GRAVITY_BITS, 0),
        },
        PresetModel {
            name: "Damped System"@,
            description: "Damped motion shows energy dissipation"@,
            initial_state: state_of(MINUS_HALF_PI_BITS, MINUS_QUARTER_PI_BITS, 0, 0),
            params: params_of(ONE_BITS, ONE_BITS, ONE_BITS, ONE_BITS, STANDARD_GRAVITY_BITS, TENTH_BITS),
        },
        PresetModel {
            name: "Low Gravity"@,
            description: "Moon-like gravity creates slower, extended motion"@,
            initial_state: state_of(MINUS_THIRD_PI_BITS, MINUS_HALF_PI_BITS, 0, 0),
            params: params_of(ONE_BITS, ONE_BITS, ONE_BITS, ONE_BITS, LUNAR_GRAVITY_BITS, 0),
        },
        PresetModel {
            name: "Near Circular"@,
            description: "High initial velocity creates near-circular motion"@,
            initial_state: state_of(0, 0, THREE_BITS, FOUR_BITS),
            params: standard_params(),
        },
    ]
}

/// The places in the library of the presets of a category, in the order in
/// which they are listed.
pub open spec fn members(category: PresetCategory) -> Seq<int> {
    match category {
        PresetCategory::Basic => seq![0, 1],
        PresetCategory::Chaotic => seq![1, 2, 7],
        PresetCategory::Physical => seq![3, 4, 5],
        PresetCategory::Extreme => seq![2, 6, 7],
    }
}

fn state_from(theta1: u64, theta2: u64, omega1: u64, omega2: u64) -> (state: PendulumState)
    ensures
        state == state_of(theta1, theta2, omega1, omega2),
{
    PendulumState::new(
        Double::from_bits(theta1),
        Double::from_bits(theta2),
        Double::from_bits(omega1),
        Double::from_bits(omega2),
    )
}

fn params_from(m1: u64, m2: u64, l1: u64, l2: u64, g: u64, damping: u64) -> (params: PendulumParams)
    ensures
        params == params_of(m1, m2, l1, l2, g, damping),
{
    PendulumParams::new(
        Double::from_bits(m1),
        Double::from_bits(m2),
        Double::from_bits(l1),
        Double::from_bits(l2),
        Double::from_bits(g),
        Double::from_bits(damping),
    )
}

/// The whole library.
pub fn get_all_presets() -> (presets: Vec<PendulumPreset>)
    ensures
        presets@.len() == PRESET_COUNT,
        forall|i: int| 0 <= i < PRESET_COUNT ==> (#[trigger] presets@[i])@ == library()[i],
{
    let mut presets: Vec<PendulumPreset> = Vec::new();
    presets.push(
        PendulumPreset::new(
            "Small Angle".to_string(),
            "Small angle oscillation - predictable behavior".to_string(),
            state_from(MINUS_FIFTH_BITS, MINUS_TENTH_BITS, 0, 0),
            PendulumParams::default(),
        ),
    );
    presets.push(
        PendulumPreset::new(
            "Classic Chaos".to_string(),
            "Classic chaotic motion with equal masses".to_string(),
            state_from(MINUS_HALF_PI_BITS, MINUS_THIRD_PI_BITS, 0, 0),
            PendulumParams::default(),
        ),
    );
    presets.push(
        PendulumPreset::new(
            "High Energy".to_string(),
            "High energy chaotic motion - complex trajectories".to_string(),
            state_from(MINUS_PI_SEVEN_TENTHS_BITS, MINUS_PI_EIGHT_TENTHS_BITS, ONE_BITS, MINUS_HALF_BITS),
            PendulumParams::default(),
        ),
    );
    presets.push(
        PendulumPreset::new(
            "Unequal Masses".to_string(),
            "Heavy bottom mass creates interesting dynamics".to_string(),
            state_from(MINUS_THIRD_PI_BITS, MINUS_QUARTER_PI_BITS, 0, 0),
            params_from(ONE_BITS, THREE_BITS, ONE_BITS, ONE_BITS, STANDARD_GRAVITY_BITS, 0),
        ),
    );
    presets.push(
        PendulumPreset::new(
            "Unequal Lengths".to_string(),
            "Different arm lengths create asymmetric motion".to_string(),
            state_from(MINUS_QUARTER_PI_BITS, MINUS_THIRD_PI_BITS, 0, 0),
            params_from(ONE_BITS, ONE_BITS, THREE_HALVES_BITS, FOUR_FIFTHS_BITS, STANDARD_GRAVITY_BITS, 0),
        ),
    );
    presets.push(
        PendulumPreset::new(
            "Damped System".to_string(),
            "Damped motion shows energy dissipation".to_string(),
            state_from(MINUS_HALF_PI_BITS, MINUS_QUARTER_PI_BITS, 0, 0),
            params_from(ONE_BITS, ONE_BITS, ONE_BITS, ONE_BITS, STANDARD_GRAVITY_BITS, TENTH_BITS),
        ),
    );
    presets.push(
        PendulumPreset::new(
            "Low Gravity".to_string(),
            "Moon-like gravity creates slower, extended motion".to_string(),
            state_from(MINUS_THIRD_PI_BITS, MINUS_HALF_PI_BITS, 0, 0),
            params_from(ONE_BITS, ONE_BITS, ONE_BITS, ONE_BITS, LUNAR_GRAVITY_BITS, 0),
        ),
    );
    presets.push(
        PendulumPreset::new(
            "Near Circular".to_string(),
            "High initial velocity creates near-circular motion".to_string(),
            state_from(0, 0, THREE_BITS, FOUR_BITS),
            PendulumParams::default(),
        ),
    );
    presets
}

/// The first preset of the library with the given name.
pub fn get_preset_by_name(name: &str) -> (r: Option<PendulumPreset>)
    ensures
        match r {
            Some(preset) => exists|i: int|
                0 <= i < PRESET_COUNT && preset@ == #[trigger] library()[i] && library()[i].name == name@ && forall|
                    j: int,
                | 0 <= j < i ==> (#[trigger] library()[j]).name != name@,
            None => forall|i: int| 0 <= i < PRESET_COUNT ==> (#[trigger] library()[i]).name != name@,
        },
{
    let presets = get_all_presets();
    let wanted: String = name.to_string();
    let mut i: usize = 0;
    while i < presets.len()
        invariant
            i <= presets@.len() == PRESET_COUNT,
            wanted@ == name@,
            forall|k: int| 0 <= k < PRESET_COUNT ==> (#[trigger] presets@[k])@ == library()[k],
            forall|j: int| 0 <= j < i ==> (#[trigger] library()[j]).name != name@,
        decreases presets@.len() - i,
    {
        if presets[i].name == wanted {
            let found = presets[i].clone();
            assert(found@ == library()[i as int]);
            return Some(found);
        }
        assert(presets@[i as int]@ == library()[i as int]);
        i = i + 1;
    }
    None
}

/// The presets of a category.
pub fn get_presets_by_category(category: PresetCategory) -> (presets: Vec<PendulumPreset>)
    ensures
        presets@.len() == members(category).len(),
        forall|i: int| 0 <= i < presets@.len() ==> (#[trigger] presets@[i])@ == library()[members(category)[i]],
{
    let all_presets = get_all_presets();
    let mut presets: Vec<PendulumPreset> = Vec::new();
    match category {
        PresetCategory::Basic => {
            presets.push(all_presets[0].clone());
            presets.push(all_presets[1].clone());
        },
        PresetCategory::Chaotic => {
            presets.push(all_presets[1].clone());
            presets.push(all_presets[2].clone());
            presets.push(all_presets[7].clone());
        },
        PresetCategory::Physical => {
            presets.push(all_presets[3].clone());
            presets.push(all_presets[4].clone());
            presets.push(all_presets[5].clone());
        },
        PresetCategory::Extreme => {
            presets.push(all_presets[2].clone());
            presets.push(all_presets[6].clone());
            presets.push(all_presets[7].clone());
        },
    }
    presets
}

} // verus!
