use chaos_pendulum::ieee::Double;
use chaos_pendulum::statistics::{PhysicsStatistics, DEFAULT_HISTORY_LENGTH};

fn d(x: f64) -> Double {
    Double::from_bits(x.to_bits())
}

fn f(x: Double) -> f64 {
    f64::from_bits(x.to_bits())
}

fn mean(xs: &Vec<Double>) -> Double {
    let sum: f64 = xs.iter().map(|x| f(*x)).sum();
    d(sum / xs.len() as f64)
}

/// The population standard deviation.
fn deviation(xs: &Vec<Double>) -> Double {
    let energies: Vec<f64> = xs.iter().map(|x| f(*x)).collect();
    let mean = energies.iter().sum::<f64>() / energies.len() as f64;
    let variance = energies.iter().map(|e| (e - mean).powi(2)).sum::<f64>() / energies.len() as f64;
    d(variance.sqrt())
}

fn add_energy(stats: &mut PhysicsStatistics, total: f64, kinetic: f64, potential: f64) {
    stats.add_energy_data(d(total), d(kinetic), d(potential));
}

fn totals(stats: &PhysicsStatistics) -> Vec<f64> {
    stats.get_energy_history().iter().map(|e| f(e.0)).collect()
}

#[test]
fn test_physics_statistics_creation() {
    let stats = PhysicsStatistics::new(100);
    assert_eq!(stats.max_history_length(), 100);
    assert!(!stats.has_data());
}

#[test]
fn test_add_energy_data() {
    let mut stats = PhysicsStatistics::new(3);
    add_energy(&mut stats, 100.0, 60.0, 40.0);
    add_energy(&mut stats, 102.0, 65.0, 37.0);
    add_energy(&mut stats, 99.0, 55.0, 44.0);

    assert_eq!(stats.get_history_length(), 3);
    assert!((f(stats.get_current_total_energy().unwrap()) - 99.0).abs() < 1e-10);
    assert!((f(stats.get_max_total_energy().unwrap()) - 102.0).abs() < 1e-10);
    assert!((f(stats.get_min_total_energy().unwrap()) - 99.0).abs() < 1e-10);
}

#[test]
fn test_history_length_limit() {
    let mut stats = PhysicsStatistics::new(2);
    add_energy(&mut stats, 100.0, 60.0, 40.0);
    add_energy(&mut stats, 102.0, 65.0, 37.0);
    add_energy(&mut stats, 99.0, 55.0, 44.0);

    assert_eq!(stats.get_history_length(), 2);
    assert_eq!(stats.get_energy_history().len(), 2);
}

#[test]
fn test_clear_history() {
    let mut stats = PhysicsStatistics::new(10);
    add_energy(&mut stats, 100.0, 60.0, 40.0);
    stats.add_trajectory_point(d(1.0), d(2.0), d(3.0), d(4.0));

    assert!(stats.has_data());
    stats.clear_history();
    assert!(!stats.has_data());
    assert!(stats.get_trajectory_history().is_empty());
}

#[test]
fn statistics_test_energy_conservation() {
    let mut stats = PhysicsStatistics::new(10);
    for _ in 0..5 {
        add_energy(&mut stats, 100.0, 60.0, 40.0);
    }

    let conservation = f(stats.get_energy_conservation(deviation).unwrap());
    assert!(conservation < 1e-10);

    add_energy(&mut stats, 200.0, 120.0, 80.0);
    let conservation2 = f(stats.get_energy_conservation(deviation).unwrap());
    assert!(conservation2 > 10.0);
}

#[test]
fn default_statistics_keep_two_thousand_samples() {
    let stats = PhysicsStatistics::default();
    assert_eq!(stats.max_history_length(), 2000);
    assert_eq!(DEFAULT_HISTORY_LENGTH, 2000);
    assert!(!stats.has_data());
    assert!(stats.get_energy_history().is_empty());
    assert!(stats.get_trajectory_history().is_empty());
    assert!(stats.get_phase_space_history().is_empty());
}

#[test]
fn one_sample_past_capacity_evicts_the_oldest() {
    for capacity in [1usize, 2, 3, 7, 50] {
        let mut stats = PhysicsStatistics::new(capacity);
        for i in 0..=capacity {
            let x = i as f64;
            add_energy(&mut stats, x, x + 0.25, x + 0.5);
            stats.add_trajectory_point(d(x), d(-x), d(2.0 * x), d(-2.0 * x));
            stats.add_phase_space_point(d(x), d(x + 1.0), d(x + 2.0), d(x + 3.0));
        }
        let expected: Vec<f64> = (1..=capacity).map(|i| i as f64).collect();
        assert_eq!(totals(&stats), expected);
        let kinetic: Vec<f64> = stats.get_energy_history().iter().map(|e| f(e.1)).collect();
        assert_eq!(kinetic, expected.iter().map(|x| x + 0.25).collect::<Vec<f64>>());
        let xs: Vec<f64> = stats.get_trajectory_history().iter().map(|p| f(p.0)).collect();
        assert_eq!(xs, expected);
        let thetas: Vec<f64> = stats.get_phase_space_history().iter().map(|p| f(p.0)).collect();
        assert_eq!(thetas, expected);
        let last = stats.get_phase_space_history()[capacity - 1];
        assert_eq!(
            (f(last.0), f(last.1), f(last.2), f(last.3)),
            (capacity as f64, capacity as f64 + 1.0, capacity as f64 + 2.0, capacity as f64 + 3.0)
        );
    }
}

#[test]
fn history_keeps_the_newest_samples_in_order() {
    let mut stats = PhysicsStatistics::new(4);
    for i in 0..25 {
        add_energy(&mut stats, i as f64, 0.0, 0.0);
        let held = totals(&stats);
        let first = if i + 1 > 4 { i + 1 - 4 } else { 0 };
        let expected: Vec<f64> = (first..=i).map(|k| k as f64).collect();
        assert_eq!(held, expected);
        assert!(stats.get_history_length() <= stats.max_history_length());
    }
}

#[test]
fn history_without_capacity_stays_empty() {
    let mut stats = PhysicsStatistics::new(0);
    add_energy(&mut stats, 1.0, 2.0, 3.0);
    stats.add_trajectory_point(d(1.0), d(2.0), d(3.0), d(4.0));
    stats.add_phase_space_point(d(1.0), d(2.0), d(3.0), d(4.0));
    assert!(!stats.has_data());
    assert_eq!(stats.get_history_length(), 0);
    assert!(stats.get_trajectory_history().is_empty());
    assert!(stats.get_phase_space_history().is_empty());
    assert_eq!(stats.get_current_total_energy(), None);
}

#[test]
fn histories_are_independent() {
    let mut stats = PhysicsStatistics::new(5);
    add_energy(&mut stats, 1.0, 2.0, 3.0);
    add_energy(&mut stats, 4.0, 5.0, 6.0);
    stats.add_phase_space_point(d(0.1), d(0.2), d(0.3), d(0.4));
    assert_eq!(stats.get_history_length(), 2);
    assert_eq!(stats.get_energy_history().len(), 2);
    assert_eq!(stats.get_phase_space_history().len(), 1);
    assert_eq!(stats.get_trajectory_history().len(), 0);
    assert_eq!(stats.get_energy_history()[1], (d(4.0), d(5.0), d(6.0)));
    assert_eq!(stats.get_phase_space_history()[0], (d(0.1), d(0.2), d(0.3), d(0.4)));
}

#[test]
fn clearing_keeps_the_capacity() {
    let mut stats = PhysicsStatistics::new(3);
    for i in 0..5 {
        add_energy(&mut stats, i as f64, 0.0, 0.0);
        stats.add_phase_space_point(d(0.0), d(0.0), d(0.0), d(i as f64));
    }
    stats.clear_history();
    assert_eq!(stats.max_history_length(), 3);
    assert_eq!(stats.get_history_length(), 0);
    assert!(stats.get_phase_space_history().is_empty());
    for i in 0..5 {
        add_energy(&mut stats, i as f64, 0.0, 0.0);
    }
    assert_eq!(totals(&stats), vec![2.0, 3.0, 4.0]);
}

#[test]
fn clone_copies_the_histories() {
    let mut stats = PhysicsStatistics::new(3);
    add_energy(&mut stats, 1.0, 2.0, 3.0);
    stats.add_trajectory_point(d(1.0), d(2.0), d(3.0), d(4.0));
    stats.add_phase_space_point(d(5.0), d(6.0), d(7.0), d(8.0));
    let copy = stats.clone();
    add_energy(&mut stats, 9.0, 9.0, 9.0);
    assert_eq!(copy.max_history_length(), 3);
    assert_eq!(copy.get_energy_history(), &vec![(d(1.0), d(2.0), d(3.0))]);
    assert_eq!(copy.get_trajectory_history(), &vec![(d(1.0), d(2.0), d(3.0), d(4.0))]);
    assert_eq!(copy.get_phase_space_history(), &vec![(d(5.0), d(6.0), d(7.0), d(8.0))]);
    assert_eq!(stats.get_history_length(), 2);
}

#[test]
fn queries_on_an_empty_history_give_nothing() {
    let stats = PhysicsStatistics::new(10);
    assert_eq!(stats.get_current_total_energy(), None);
    assert_eq!(stats.get_current_kinetic_energy(), None);
    assert_eq!(stats.get_current_potential_energy(), None);
    assert_eq!(stats.get_max_total_energy(), None);
    assert_eq!(stats.get_min_total_energy(), None);
    assert_eq!(stats.get_average_total_energy(mean), None);
    assert_eq!(stats.get_energy_conservation(deviation), None);
}

#[test]
fn current_energies_are_those_of_the_newest_sample() {
    let mut stats = PhysicsStatistics::new(2);
    add_energy(&mut stats, 100.0, 60.0, 40.0);
    add_energy(&mut stats, 102.0, 65.0, 37.0);
    add_energy(&mut stats, 99.0, 55.0, 44.0);
    assert_eq!(stats.get_current_total_energy(), Some(d(99.0)));
    assert_eq!(stats.get_current_kinetic_energy(), Some(d(55.0)));
    assert_eq!(stats.get_current_potential_energy(), Some(d(44.0)));
}

#[test]
fn extremes_are_taken_over_what_is_held() {
    let mut stats = PhysicsStatistics::new(3);
    for x in [500.0, -7.0, 3.0, 12.5, -2.0] {
        add_energy(&mut stats, x, 0.0, 0.0);
    }
    // 500 and -7 have been evicted.
    assert_eq!(stats.get_max_total_energy(), Some(d(12.5)));
    assert_eq!(stats.get_min_total_energy(), Some(d(-2.0)));
}

#[test]
fn extremes_agree_with_a_fold_over_the_machine_numbers() {
    let data = [3.5, -1.25, 8.0, 8.0, -19.62, 0.0, 2.0e10, -3.0e-5, 7.0];
    let mut stats = PhysicsStatistics::new(100);
    for (i, x) in data.iter().enumerate() {
        add_energy(&mut stats, *x, 0.0, 0.0);
        let held = &data[..=i];
        let max = held.iter().copied().fold(f64::NEG_INFINITY, f64::max);
        let min = held.iter().copied().fold(f64::INFINITY, f64::min);
        assert_eq!(f(stats.get_max_total_energy().unwrap()), max);
        assert_eq!(f(stats.get_min_total_energy().unwrap()), min);
    }
}

#[test]
fn extremes_pass_over_what_is_not_a_number() {
    let mut stats = PhysicsStatistics::new(10);
    add_energy(&mut stats, f64::NAN, 0.0, 0.0);
    assert!(stats.get_max_total_energy().unwrap().is_nan());
    assert!(stats.get_min_total_energy().unwrap().is_nan());
    add_energy(&mut stats, 4.0, 0.0, 0.0);
    add_energy(&mut stats, f64::NAN, 0.0, 0.0);
    add_energy(&mut stats, -6.0, 0.0, 0.0);
    assert_eq!(stats.get_max_total_energy(), Some(d(4.0)));
    assert_eq!(stats.get_min_total_energy(), Some(d(-6.0)));
}

#[test]
fn extremes_use_the_total_energy_only() {
    let mut stats = PhysicsStatistics::new(10);
    add_energy(&mut stats, 1.0, 900.0, -900.0);
    add_energy(&mut stats, 2.0, -900.0, 900.0);
    assert_eq!(stats.get_max_total_energy(), Some(d(2.0)));
    assert_eq!(stats.get_min_total_energy(), Some(d(1.0)));
}

#[test]
fn average_is_computed_from_the_totals_in_order() {
    let mut stats = PhysicsStatistics::new(3);
    for (t, k, p) in [(50.0, 1.0, 2.0), (100.0, 60.0, 40.0), (102.0, 65.0, 37.0), (99.0, 55.0, 44.0)] {
        add_energy(&mut stats, t, k, p);
    }
    let seen = stats.get_average_total_energy(|xs: &Vec<Double>| {
        assert_eq!(xs, &vec![d(100.0), d(102.0), d(99.0)]);
        d(-1.0)
    });
    assert_eq!(seen, Some(d(-1.0)));
    let average = f(stats.get_average_total_energy(mean).unwrap());
    assert_eq!(average, (100.0 + 102.0 + 99.0) / 3.0);
}

#[test]
fn average_of_one_sample_is_that_sample() {
    let mut stats = PhysicsStatistics::new(3);
    add_energy(&mut stats, -19.62, 0.0, -19.62);
    assert_eq!(stats.get_average_total_energy(mean), Some(d(-19.62)));
}

#[test]
fn conservation_needs_two_samples() {
    let mut stats = PhysicsStatistics::new(10);
    add_energy(&mut stats, 100.0, 60.0, 40.0);
    assert_eq!(stats.get_energy_conservation(deviation), None);
    add_energy(&mut stats, 102.0, 60.0, 42.0);
    // Two samples 2 apart: deviation 1.
    assert_eq!(stats.get_energy_conservation(deviation), Some(d(1.0)));
}

#[test]
fn conservation_is_computed_from_the_totals_in_order() {
    let mut stats = PhysicsStatistics::new(2);
    add_energy(&mut stats, 1.0, 10.0, 20.0);
    add_energy(&mut stats, 2.0, 30.0, 40.0);
    add_energy(&mut stats, 3.0, 50.0, 60.0);
    let seen = stats.get_energy_conservation(|xs: &Vec<Double>| {
        assert_eq!(xs, &vec![d(2.0), d(3.0)]);
        d(42.0)
    });
    assert_eq!(seen, Some(d(42.0)));
}
