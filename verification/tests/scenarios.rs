//! Concrete scenarios: exact step counts, delay bounds, the plateau run,
//! degenerate motions, re-arming, and the numeric operations themselves.

use ramp_maker::num::Fix;
use ramp_maker::util::traits::{Ceil, Sqrt};
use ramp_maker::{Flat, MotionProfile, Trapezoidal};

/// The fixed-point bits of the delay `1 / 1000`.
const PLATEAU_DELAY_BITS: u64 = 4294967;

fn collect_delays(profile: &mut Trapezoidal) -> Vec<u64> {
    let mut delays = profile.delays();
    let mut out = Vec::new();
    while let Some(delay) = delays.next() {
        out.push(delay.bits);
    }
    out
}

#[test]
fn ramp_of_two_hundred_steps_has_expected_shape() {
    let mut profile = Trapezoidal::new(Fix::from_int(6000));
    profile.enter_position_mode(Fix::from_int(1000), 200);
    let initial_bits = profile.delay_initial.bits;
    let delays = collect_delays(&mut profile);

    // Exactly one delay per step.
    assert_eq!(delays.len(), 200);

    // Every delay lies between the minimum delay (1/1000) and the initial
    // delay (1/sqrt(12000)).
    for &bits in &delays {
        assert!(bits >= PLATEAU_DELAY_BITS);
        assert!(bits <= initial_bits);
    }

    // The first delay is close to the initial delay 1/sqrt(12000), about
    // 0.009129 time units; the update rule's first step already shortens it
    // by the factor 1 - q + 1.5*q^2 with q of about one half.
    assert!(delays[0] <= initial_bits);
    let first_value = (delays[0] as f64) / 4294967296.0;
    assert!((first_value - 0.009129).abs() < 0.0015);
    assert!(first_value > 0.0075);

    // A contiguous run of delays equal to 1/1000 sits in the middle: the
    // plateau at the maximum velocity.
    let first_at_min = delays.iter().position(|&b| b == PLATEAU_DELAY_BITS).unwrap();
    let last_at_min = delays.iter().rposition(|&b| b == PLATEAU_DELAY_BITS).unwrap();
    assert!(first_at_min > 0);
    assert!(last_at_min < delays.len() - 1);
    assert!(last_at_min - first_at_min >= 10);
    for i in first_at_min..=last_at_min {
        assert_eq!(delays[i], PLATEAU_DELAY_BITS);
    }

    // The ramp rises before the plateau and falls after it.
    for i in 1..=first_at_min {
        assert!(delays[i] <= delays[i - 1]);
    }
    for i in (last_at_min + 1)..delays.len() {
        assert!(delays[i] >= delays[i - 1]);
    }
    assert!(delays[1] < delays[0]);
    assert!(delays[delays.len() - 1] > PLATEAU_DELAY_BITS);
}

#[test]
fn zero_velocity_produces_no_delays() {
    let mut profile = Trapezoidal::new(Fix::from_int(6000));
    profile.enter_position_mode(Fix::zero(), 200);
    assert!(profile.next_delay().is_none());
    let delays = collect_delays(&mut profile);
    assert_eq!(delays.len(), 0);

    let mut flat = Flat::new();
    flat.enter_position_mode(Fix::zero(), 200);
    assert!(flat.next_delay().is_none());
}

#[test]
fn zero_steps_produce_no_delays() {
    let mut profile = Trapezoidal::new(Fix::from_int(6000));
    profile.enter_position_mode(Fix::from_int(1000), 0);
    assert!(profile.next_delay().is_none());

    let mut flat = Flat::new();
    flat.enter_position_mode(Fix::from_int(1000), 0);
    assert!(flat.next_delay().is_none());
}

#[test]
fn rearming_discards_unfinished_motion() {
    // Pull a few delays, re-arm, and compare against a fresh engine: the
    // delays that follow depend only on the new arguments.
    let mut used = Trapezoidal::new(Fix::from_int(6000));
    used.enter_position_mode(Fix::from_int(500), 300);
    for _ in 0..17 {
        assert!(used.next_delay().is_some());
    }
    used.enter_position_mode(Fix::from_int(1000), 200);

    let mut fresh = Trapezoidal::new(Fix::from_int(6000));
    fresh.enter_position_mode(Fix::from_int(1000), 200);

    assert_eq!(collect_delays(&mut used), collect_delays(&mut fresh));
}

#[test]
fn velocities_are_reciprocals_of_delays() {
    let mut flat = Flat::new();
    flat.enter_position_mode(Fix::from_int(2), 3);
    let mut velocities = flat.velocities();
    let mut produced = 0u32;
    while let Some(velocity) = velocities.next() {
        assert_eq!(velocity.bits, 2 * 0x1_0000_0000);
        produced += 1;
    }
    assert_eq!(produced, 3);
}

#[test]
fn accelerations_of_flat_motion_are_zero() {
    let mut flat = Flat::new();
    flat.enter_position_mode(Fix::from_int(2), 5);
    let mut accelerations = flat.accelerations();
    let mut produced = 0u32;
    while let Some(accel) = accelerations.next() {
        assert_eq!(accel, 0);
        produced += 1;
    }
    // One acceleration between each pair of consecutive steps.
    assert_eq!(produced, 4);
}

#[test]
fn sqrt_of_perfect_squares_is_exact() {
    assert_eq!(Fix::from_int(4).sqrt().bits, 2 * 0x1_0000_0000);
    assert_eq!(Fix::from_int(9).sqrt().bits, 3 * 0x1_0000_0000);
    assert_eq!(Fix::from_int(1).sqrt().bits, 0x1_0000_0000);
    // sqrt(2) rounded down to a multiple of 2^-16.
    let root_two = Fix::from_int(2).sqrt();
    assert_eq!(root_two.bits, 92681 * 0x1_0000);
}

#[test]
fn ceil_rounds_up_to_whole_numbers() {
    let two_and_a_half = Fix { bits: 5 * 0x8000_0000 };
    assert_eq!(two_and_a_half.ceil().bits, 3 * 0x1_0000_0000);
    assert_eq!(Fix::from_int(7).ceil().bits, 7 * 0x1_0000_0000);
    let just_above_zero = Fix { bits: 1 };
    assert_eq!(just_above_zero.ceil().bits, 0x1_0000_0000);
}

#[test]
fn short_ramp_matches_the_update_rule_exactly() {
    // With a target acceleration of 8 the initial delay is exactly 0.25,
    // and with a maximum velocity of 8 the minimum delay is exactly 0.125,
    // so every step of a ten-step motion can be computed by hand from the
    // update rule (values are fixed-point bit patterns, 32 fractional
    // bits).
    let mut profile = Trapezoidal::new(Fix::from_int(8));
    profile.enter_position_mode(Fix::from_int(8), 10);
    let delays = collect_delays(&mut profile);
    let expected: Vec<u64> = vec![
        939524096,  // 0.21875: ramp-up, factor 1 - q + 1.5 q^2 with q = 1/2
        786386944, 660328158, 570879129, // ramp-up continues
        536870912, 536870912, // plateau at the minimum delay 0.125
        616562688, 743348686, 985514817, // ramp-down
        1073741824, // clamped at the initial delay 0.25
    ];
    assert_eq!(delays, expected);
}

#[test]
fn initial_delay_comes_from_the_acceleration() {
    // delay_initial = 1 / sqrt(2 * 8) = 0.25 exactly.
    let profile = Trapezoidal::new(Fix::from_int(8));
    assert_eq!(profile.delay_initial.bits, 0x4000_0000);
    assert_eq!(profile.delay_prev.bits, 0x4000_0000);
    assert!(profile.delay_min.is_none());
    assert_eq!(profile.steps_left, 0);
}
