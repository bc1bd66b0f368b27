use dial_decisions::events::DialDirection;
use dial_decisions::sampler::{DataPoint, DecisionSampler, QUIESCENCE_MS};

#[test]
fn new_sampler_starts_at_the_initial_value() {
    let sampler = DecisionSampler::new(0, 100, 40);
    assert_eq!(sampler.current_value(), 40);
    assert_eq!(sampler.min_value(), 0);
    assert_eq!(sampler.max_value(), 100);
    assert!(!sampler.is_finalized());
    assert!(!sampler.is_pending());
    assert!(sampler.samples().is_empty());
    assert_eq!(sampler.terminal(), None);
}

#[test]
fn rotation_saturates_at_the_upper_bound() {
    let mut sampler = DecisionSampler::new(-1, 1, 0);
    sampler.apply_rotation(DialDirection::Clockwise, 10);
    assert_eq!(sampler.current_value(), 1);
    sampler.apply_rotation(DialDirection::Clockwise, 20);
    sampler.apply_rotation(DialDirection::Clockwise, 30);
    assert_eq!(sampler.current_value(), 1);
}

#[test]
fn rotation_saturates_at_the_lower_bound() {
    let mut sampler = DecisionSampler::new(-10, 10, -9);
    sampler.apply_rotation(DialDirection::Counterclockwise, 1);
    sampler.apply_rotation(DialDirection::Counterclockwise, 2);
    sampler.apply_rotation(DialDirection::Counterclockwise, 3);
    assert_eq!(sampler.current_value(), -10);
}

#[test]
fn value_stays_within_bounds_for_a_long_run_of_rotations() {
    let mut sampler = DecisionSampler::new(-3, 4, 0);
    let mut seed: u32 = 12345;
    for step in 0..2000u64 {
        seed = seed.wrapping_mul(1664525).wrapping_add(1013904223);
        let direction =
            if (seed >> 16) & 1 == 0 { DialDirection::Clockwise } else { DialDirection::Counterclockwise };
        sampler.apply_rotation(direction, step);
        assert!(-3 <= sampler.current_value() && sampler.current_value() <= 4);
    }
}

#[test]
fn a_rest_longer_than_the_window_records_one_sample() {
    let mut sampler = DecisionSampler::new(-10, 10, 0);
    sampler.apply_rotation(DialDirection::Clockwise, 1000);
    sampler.apply_rotation(DialDirection::Clockwise, 1100);
    assert!(sampler.is_pending());
    sampler.tick(1100 + QUIESCENCE_MS, 77);
    assert!(sampler.samples().is_empty());
    sampler.tick(1101 + QUIESCENCE_MS, 78);
    assert_eq!(sampler.samples(), &vec![DataPoint { timestamp: 78, value: 2 }]);
    assert!(!sampler.is_pending());
    sampler.tick(5000, 79);
    sampler.tick(9000, 80);
    assert_eq!(sampler.samples().len(), 1);
}

#[test]
fn continuous_motion_for_two_seconds_records_nothing_until_it_stops() {
    let mut sampler = DecisionSampler::new(-10, 10, 0);
    let mut now: u64 = 0;
    let mut clockwise = true;
    while now < 2000 {
        let direction =
            if clockwise { DialDirection::Clockwise } else { DialDirection::Counterclockwise };
        sampler.apply_rotation(direction, now);
        clockwise = !clockwise;
        let mut idle = now;
        while idle < now + 400 {
            sampler.tick(idle, idle);
            idle += 16;
        }
        now += 400;
    }
    assert!(sampler.samples().is_empty());
    sampler.finalize(now);
    assert!(sampler.samples().is_empty());
    assert_eq!(sampler.terminal(), Some(DataPoint { timestamp: now, value: sampler.current_value() }));
}

#[test]
fn a_rotation_at_the_bound_does_not_arm_the_timer() {
    let mut sampler = DecisionSampler::new(0, 1, 1);
    sampler.apply_rotation(DialDirection::Clockwise, 5);
    assert!(!sampler.is_pending());
    sampler.tick(10_000, 10_000);
    assert!(sampler.samples().is_empty());
}

#[test]
fn a_clock_that_reads_less_than_at_arming_records_nothing() {
    let mut sampler = DecisionSampler::new(-10, 10, 0);
    sampler.apply_rotation(DialDirection::Clockwise, 1000);
    sampler.tick(10, 10);
    assert!(sampler.samples().is_empty());
    assert!(sampler.is_pending());
}

#[test]
fn finalize_twice_keeps_the_first_decision() {
    let mut sampler = DecisionSampler::new(-10, 10, 0);
    sampler.apply_rotation(DialDirection::Counterclockwise, 5);
    sampler.finalize(100);
    assert!(sampler.is_finalized());
    assert!(!sampler.is_pending());
    assert_eq!(sampler.terminal(), Some(DataPoint { timestamp: 100, value: -1 }));
    sampler.finalize(900);
    assert_eq!(sampler.terminal(), Some(DataPoint { timestamp: 100, value: -1 }));
    assert!(sampler.samples().is_empty());
}

#[test]
fn a_finalized_sampler_ignores_rotation_and_ticks() {
    let mut sampler = DecisionSampler::new(-10, 10, 3);
    sampler.apply_rotation(DialDirection::Clockwise, 0);
    sampler.finalize(10);
    sampler.apply_rotation(DialDirection::Clockwise, 20);
    sampler.apply_rotation(DialDirection::Counterclockwise, 30);
    sampler.tick(5000, 5000);
    assert_eq!(sampler.current_value(), 4);
    assert!(sampler.samples().is_empty());
    assert!(!sampler.is_pending());
}

#[test]
fn init_resets_value_samples_and_decision() {
    let mut sampler = DecisionSampler::new(0, 100, 50);
    sampler.apply_rotation(DialDirection::Clockwise, 0);
    sampler.tick(600, 600);
    sampler.finalize(700);
    sampler.init();
    assert_eq!(sampler.current_value(), 50);
    assert!(sampler.samples().is_empty());
    assert_eq!(sampler.terminal(), None);
    assert!(!sampler.is_finalized());
    sampler.apply_rotation(DialDirection::Counterclockwise, 800);
    assert_eq!(sampler.current_value(), 49);
}
