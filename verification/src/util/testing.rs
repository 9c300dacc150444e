//! Reusable checks for motion profiles.
//!
//! The checks here hold for every [`MotionProfile`] implementation; each of
//! this crate's profiles is run through them, and implementations from
//! outside the crate may reuse them. Every assertion is discharged by the
//! verifier, so running the checks cannot fail; they exist to state, in
//! executable form, what any profile's contract guarantees.

use vstd::prelude::*;

use crate::num::Fix;

verus! {

/// Alias for [`crate::MotionProfile`] with the extras used by the checks
/// here.
pub trait MotionProfile: crate::MotionProfile + Default {

}

impl<T> MotionProfile for T where T: crate::MotionProfile + Default {

}

/// The bit pattern of one thousand steps per unit of time, the velocity the
/// checks arm their motions with.
pub const CHECK_VELOCITY_BITS: u64 = 0x3E8_0000_0000;

/// The bit pattern of the delay `1 / 1000`, which a profile armed at the
/// checks' velocity must never undercut.
pub const CHECK_MIN_DELAY_BITS: u64 = 4294967;

/// Run the full check suite on the provided [`MotionProfile`]
/// implementation, one fresh profile per check.
pub fn test<Profile: MotionProfile>(for_step_count: Profile, for_max_velocity: Profile)
    requires
        for_step_count.inv(),
        for_step_count.can_arm((Fix { bits: CHECK_VELOCITY_BITS }), 200),
        for_max_velocity.inv(),
        for_max_velocity.can_arm((Fix { bits: CHECK_VELOCITY_BITS }), 200),
        for_max_velocity.arming_floor((Fix { bits: CHECK_VELOCITY_BITS }))
            >= CHECK_MIN_DELAY_BITS,
{
    position_mode_must_produce_correct_number_of_steps(for_step_count);
    position_mode_must_respect_maximum_velocity(for_max_velocity);
}

/// A motion in position mode must produce the correct number of steps.
pub fn position_mode_must_produce_correct_number_of_steps<Profile: MotionProfile>(
    profile: Profile,
)
    requires
        profile.inv(),
        profile.can_arm((Fix { bits: CHECK_VELOCITY_BITS }), 200),
{
    let mut profile = profile;
    let num_steps: u32 = 200;
    profile.enter_position_mode(Fix::from_int(1000), num_steps);

    let mut delays = profile.delays();
    let mut count: u32 = 0;
    loop
        invariant
            delays.wf(),
            count + delays.remaining().len() == 200,
        ensures
            count == 200,
        decreases delays.remaining().len(),
    {
        match delays.next() {
            Some(_) => {
                count = count + 1;
            },
            None => {
                break ;
            },
        }
    }
    assert(count == num_steps);
}

/// A motion in position mode must respect the maximum velocity: no delay
/// falls below the velocity's reciprocal.
pub fn position_mode_must_respect_maximum_velocity<Profile: MotionProfile>(profile: Profile)
    requires
        profile.inv(),
        profile.can_arm((Fix { bits: CHECK_VELOCITY_BITS }), 200),
        profile.arming_floor((Fix { bits: CHECK_VELOCITY_BITS })) >= CHECK_MIN_DELAY_BITS,
{
    let mut profile = profile;
    let max_velocity = Fix::from_int(1000);
    profile.enter_position_mode(max_velocity, 200);

    let min_delay: u64 = CHECK_MIN_DELAY_BITS;
    loop
        invariant
            profile.inv(),
            profile.floor_of() >= min_delay,
        ensures
            profile.inv(),
        decreases profile.future_delays().len(),
    {
        match profile.next_delay() {
            Some(delay) => {
                assert(delay.bits >= min_delay);
            },
            None => {
                break ;
            },
        }
    }
}

} // verus!
