use chaos_pendulum::ieee::Double;
use chaos_pendulum::physics::{
    assess_trial, clamp_determinant, energy_error_is_relative, largest_magnitude, PhysicsEngine, StepOutcome,
    ADAPTIVE_CAP_BITS, ADAPTIVE_FLOOR_BITS, DEFAULT_TIME_STEP_BITS, DIVISOR_FLOOR_BITS, MIN_TIME_STEP_BITS,
    NEGATIVE_DIVISOR_FLOOR_BITS,
};

fn d(x: f64) -> Double {
    Double::from_bits(x.to_bits())
}

fn f(x: Double) -> f64 {
    f64::from_bits(x.to_bits())
}

/// One trial assessed by the rule, the three products computed as the rule
/// says.
fn assess(dt: f64, error: f64, tolerance: f64) -> StepOutcome {
    assess_trial(d(dt), d(error), d(tolerance), d(tolerance / 10.0), d(dt * 1.5), d(dt * 0.5))
}

#[test]
fn test_physics_engine_creation() {
    let engine = PhysicsEngine::new(d(0.01));
    assert_eq!(f(engine.dt()), 0.01);
}

#[test]
fn test_set_dt() {
    let mut engine = PhysicsEngine::new(d(0.01));
    engine.set_dt(d(0.005));
    assert_eq!(f(engine.dt()), 0.005);

    engine.set_dt(d(1e-10));
    assert!(f(engine.dt()) >= 1e-6);
}

#[test]
fn constants_are_the_numbers_they_stand_for() {
    assert_eq!(f64::from_bits(MIN_TIME_STEP_BITS), 1e-6);
    assert_eq!(f64::from_bits(DEFAULT_TIME_STEP_BITS), 0.001);
    assert_eq!(f64::from_bits(ADAPTIVE_FLOOR_BITS), 1e-8);
    assert_eq!(f64::from_bits(ADAPTIVE_CAP_BITS), 1e-2);
    assert_eq!(f64::from_bits(DIVISOR_FLOOR_BITS), 1e-10);
    assert_eq!(f64::from_bits(NEGATIVE_DIVISOR_FLOOR_BITS), -1e-10);
}

#[test]
fn default_engine_steps_by_a_millisecond() {
    assert_eq!(f(PhysicsEngine::default().dt()), 0.001);
}

#[test]
fn new_engine_takes_the_step_as_it_is() {
    assert_eq!(f(PhysicsEngine::new(d(1e-9)).dt()), 1e-9);
    assert_eq!(f(PhysicsEngine::new(d(-1.0)).dt()), -1.0);
}

#[test]
fn set_dt_clamps_to_a_microsecond() {
    let mut engine = PhysicsEngine::default();
    for dt in [1e-10, 0.0, -0.0, -1.0, 9.9e-7, f64::NEG_INFINITY, f64::NAN] {
        engine.set_dt(d(dt));
        assert_eq!(f(engine.dt()), 1e-6, "set_dt({dt})");
    }
    for dt in [1e-6, 1.1e-6, 0.001, 0.5, 1e9, f64::INFINITY] {
        engine.set_dt(d(dt));
        assert_eq!(f(engine.dt()), dt, "set_dt({dt})");
    }
}

#[test]
fn set_dt_agrees_with_the_machine_maximum() {
    let mut engine = PhysicsEngine::default();
    for dt in [3e-7f64, 1e-6, 2e-6, 0.01, -5.0, 1e-300] {
        engine.set_dt(d(dt));
        assert_eq!(f(engine.dt()), dt.max(1e-6));
    }
}

#[test]
fn small_error_grows_the_step() {
    assert_eq!(assess(0.001, 1e-9, 1e-6), StepOutcome::Refined(d(0.001 * 1.5)));
}

#[test]
fn grown_step_is_capped() {
    assert_eq!(assess(0.009, 1e-9, 1e-6), StepOutcome::Refined(d(0.01)));
    assert_eq!(assess(0.009, 1e-9, 1e-6), StepOutcome::Refined(d((0.009f64 * 1.5).min(1e-2))));
}

#[test]
fn step_at_the_cap_does_not_grow() {
    assert_eq!(assess(0.01, 1e-9, 1e-6), StepOutcome::Refined(d(0.01)));
    assert_eq!(assess(0.02, 1e-9, 1e-6), StepOutcome::Refined(d(0.02)));
}

#[test]
fn moderate_error_keeps_the_step() {
    assert_eq!(assess(0.001, 5e-7, 1e-6), StepOutcome::Refined(d(0.001)));
    // A tenth of the tolerance is not under it.
    assert_eq!(assess(0.001, 1e-6 / 10.0, 1e-6), StepOutcome::Refined(d(0.001)));
}

#[test]
fn large_error_halves_the_step() {
    assert_eq!(assess(0.001, 1e-3, 1e-6), StepOutcome::Retry(d(0.0005)));
    // An error equal to the tolerance is not under it.
    assert_eq!(assess(0.001, 1e-6, 1e-6), StepOutcome::Retry(d(0.0005)));
}

#[test]
fn step_at_the_floor_is_forced() {
    assert_eq!(assess(2e-8, 1.0, 1e-6), StepOutcome::Forced(d(1e-8)));
    assert_eq!(assess(1e-8, 1.0, 1e-6), StepOutcome::Forced(d(1e-8)));
    assert_eq!(assess(1e-12, 1.0, 1e-6), StepOutcome::Forced(d(1e-8)));
    assert_eq!(assess(3e-8, 1.0, 1e-6), StepOutcome::Retry(d(1.5e-8)));
}

#[test]
fn error_that_is_not_a_number_shrinks_the_step() {
    assert_eq!(assess(0.001, f64::NAN, 1e-6), StepOutcome::Retry(d(0.0005)));
    assert_eq!(assess(f64::NAN, f64::NAN, 1e-6), StepOutcome::Forced(d(1e-8)));
}

#[test]
fn halving_reaches_the_floor() {
    let mut dt = 0.01;
    let mut trials = 0;
    loop {
        trials += 1;
        match assess(dt, 1.0, 1e-6) {
            StepOutcome::Retry(next) => {
                assert!(f(next) < dt);
                assert!(f(next) > 1e-8);
                dt = f(next);
            }
            StepOutcome::Forced(next) => {
                assert_eq!(f(next), 1e-8);
                break;
            }
            StepOutcome::Refined(_) => panic!("an error over the tolerance was accepted"),
        }
        assert!(trials < 100);
    }
    assert_eq!(trials, 20);
}

#[test]
fn determinant_away_from_zero_is_kept() {
    for det in [1.0, -1.0, 1e-10, -1e-10, 2e-10, 1e300, f64::INFINITY, f64::NEG_INFINITY] {
        assert_eq!(f(clamp_determinant(d(det))), det, "det = {det}");
    }
}

#[test]
fn determinant_near_zero_is_floored() {
    for det in [9.9e-11f64, 1e-11, 1e-300, f64::from_bits(1)] {
        assert_eq!(f(clamp_determinant(d(det))), 1e-10, "det = {det}");
        assert_eq!(f(clamp_determinant(d(-det))), -1e-10, "det = -{det}");
    }
}

#[test]
fn zero_determinant_counts_as_positive() {
    assert_eq!(f(clamp_determinant(d(0.0))), 1e-10);
    assert_eq!(f(clamp_determinant(d(-0.0))), 1e-10);
}

#[test]
fn determinant_that_is_not_a_number_is_kept() {
    assert!(clamp_determinant(d(f64::NAN)).is_nan());
}

#[test]
fn clamped_determinant_agrees_with_the_formula() {
    for det in [0.5f64, -0.25, 3e-11, -3e-11, 1e-10, 0.0, 7e-200, -7e-200] {
        let expected = if det.abs() < 1e-10 { 1e-10 * det.signum() } else { det };
        assert_eq!(f(clamp_determinant(d(det))), expected, "det = {det}");
    }
}

#[test]
fn energy_error_is_relative_over_the_floor() {
    for e in [1.0f64, -1.0, -19.62, 1.1e-10, -1.1e-10, f64::INFINITY] {
        assert!(energy_error_is_relative(d(e)), "e = {e}");
        assert_eq!(energy_error_is_relative(d(e)), e.abs() > 1e-10);
    }
    for e in [0.0f64, -0.0, 1e-10, -1e-10, 1e-11, -1e-300, f64::NAN] {
        assert!(!energy_error_is_relative(d(e)), "e = {e}");
        assert_eq!(energy_error_is_relative(d(e)), e.abs() > 1e-10);
    }
}

#[test]
fn largest_magnitude_agrees_with_the_machine() {
    let values = [0.0f64, -0.0, 1.5, -1.5, 2.0, -3.25, 1e-9, -1e300, f64::INFINITY, f64::NEG_INFINITY];
    for a in values {
        for b in values {
            for c in [0.25f64, -7.0] {
                for e in [-0.5f64, 4.0] {
                    let ours = f(largest_magnitude(d(a), d(b), d(c), d(e)));
                    let theirs = a.abs().max(b.abs()).max(c.abs()).max(e.abs());
                    assert_eq!(ours, theirs, "{a}, {b}, {c}, {e}");
                }
            }
        }
    }
}

#[test]
fn largest_magnitude_picks_by_magnitude_not_by_sign() {
    assert_eq!(largest_magnitude(d(1.0), d(-4.0), d(3.0), d(-2.0)), d(4.0));
    assert_eq!(largest_magnitude(d(-0.5), d(0.25), d(-0.125), d(0.0)), d(0.5));
    assert_eq!(largest_magnitude(d(0.0), d(0.0), d(0.0), d(-9.0)), d(9.0));
    assert_eq!(f(largest_magnitude(d(-0.0), d(0.0), d(-0.0), d(0.0))), 0.0);
}

#[test]
fn largest_magnitude_passes_over_what_is_not_a_number() {
    assert_eq!(largest_magnitude(d(f64::NAN), d(-4.0), d(3.0), d(-2.0)), d(4.0));
    assert_eq!(largest_magnitude(d(1.0), d(f64::NAN), d(f64::NAN), d(-2.0)), d(2.0));
    assert_eq!(largest_magnitude(d(1.0), d(2.0), d(3.0), d(f64::NAN)), d(3.0));
    assert!(largest_magnitude(d(f64::NAN), d(f64::NAN), d(f64::NAN), d(f64::NAN)).is_nan());
}
