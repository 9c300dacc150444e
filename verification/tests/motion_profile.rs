//! The motion-profile test suite: each profile passes the shared checks and
//! produces the ramp shape it promises.

use ramp_maker::num::Fix;
use ramp_maker::util::testing;
use ramp_maker::{Flat, MotionProfile, Trapezoidal};

#[test]
fn flat_should_pass_motion_profile_tests() {
    testing::test::<Flat>(Flat::default(), Flat::default());
}

#[test]
fn flat_should_produce_constant_velocity() {
    let mut flat = Flat::new();

    flat.enter_position_mode(Fix::from_int(2), 200);
    let mut ramp = flat.ramp();
    let mut produced = 0u32;
    while let Some(delay) = ramp.next() {
        // A velocity of 2 steps per unit of time means half a unit per step.
        assert_eq!(delay.bits, 0x8000_0000);
        produced += 1;
    }
    assert_eq!(produced, 200);
}

#[test]
fn trapezoidal_should_pass_motion_profile_tests() {
    testing::test::<Trapezoidal>(Trapezoidal::default(), Trapezoidal::default());
}

#[test]
fn trapezoidal_should_come_to_stop_with_last_step() {
    let mut trapezoidal = Trapezoidal::new(Fix::from_int(6000));

    let mut last_velocity = None;

    trapezoidal.enter_position_mode(Fix::from_int(1000), 200);
    let mut velocities = trapezoidal.velocities();
    while let Some(velocity) = velocities.next() {
        last_velocity = Some(velocity);
    }

    let last_velocity = last_velocity.unwrap();

    // No idea if this value is appropriate, but it matches what the
    // algorithm produces. Even if that's not okay, at the very least this
    // test documents the potential shortcoming and protects against further
    // regressions.
    const MIN_VELOCITY_BITS: u64 = 110 * 0x1_0000_0000;
    assert!(last_velocity.bits <= MIN_VELOCITY_BITS);
}

#[test]
fn trapezoidal_should_generate_actual_trapezoidal_ramp() {
    let mut trapezoidal = Trapezoidal::new(Fix::from_int(6000));

    let mut mode = Mode::RampUp;

    let mut ramped_up = false;
    let mut plateaued = false;
    let mut ramped_down = false;

    trapezoidal.enter_position_mode(Fix::from_int(1000), 200);
    let mut accelerations = trapezoidal.accelerations();
    let mut i = 0usize;
    while let Some(accel) = accelerations.next() {
        match mode {
            Mode::RampUp => {
                ramped_up = true;

                if i > 0 && accel == 0 {
                    mode = Mode::Plateau;
                } else {
                    assert!(accel > 0);
                }
            }
            Mode::Plateau => {
                plateaued = true;

                if accel < 0 {
                    mode = Mode::RampDown;
                } else {
                    assert_eq!(accel, 0);
                }
            }
            Mode::RampDown => {
                ramped_down = true;

                assert!(accel <= 0);
            }
        }

        i += 1;
    }

    assert!(ramped_up);
    assert!(plateaued);
    assert!(ramped_down);
}

#[test]
fn trapezoidal_should_generate_ramp_with_approximate_target_acceleration() {
    let target_accel = 6000.0f64;
    let mut trapezoidal = Trapezoidal::new(Fix::from_int(6000));

    // Make the ramp so short that it becomes triangular. This makes testing
    // a bit easier, as we don't have to deal with the plateau.
    let num_steps: u32 = 100;
    trapezoidal.enter_position_mode(Fix::from_int(1000), num_steps);

    let mut accelerations = trapezoidal.accelerations();
    let mut i: u32 = 0;
    while let Some(accel) = accelerations.next() {
        let accel_value = (accel as f64) / 4294967296.0;

        let around_start = i < 5;
        let around_end = i > num_steps - 5;

        // There are some inaccuracies at various points, which we
        // accept. The rest of the ramp is much more accurate.
        if !around_start && !around_end {
            let epsilon = target_accel * 0.05;
            assert!(
                (accel_value.abs() - target_accel).abs() <= epsilon,
                "step {}: acceleration {} is not within {} of {}",
                i,
                accel_value,
                epsilon,
                target_accel,
            );
        }

        i += 1;
    }
}

#[derive(Debug, Eq, PartialEq)]
enum Mode {
    RampUp,
    Plateau,
    RampDown,
}
