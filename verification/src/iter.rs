//! Sequences of values derived from a motion profile.
//!
//! Each type here is produced by draining a [`MotionProfile`] and holds the
//! values of every remaining step, handed out one at a time through a `next`
//! method. The acceleration sequence is signed — it is negative during
//! ramp-down — so its values are signed fixed-point bit patterns.

use vstd::prelude::*;

use crate::num::{
    fix_add, fix_div, fix_recip, lemma_recip_bits_bounds, recip_bits, Fix, MIN_DELAY_BITS,
};
use crate::MotionProfile;

verus! {

/// The sequence of delay values of each step.
///
/// Can be created by calling [`MotionProfile::delays`].
pub struct Delays {
    /// The collected delay values, in the order they were produced.
    pub items: Vec<Fix>,
    /// How many values have been handed out so far.
    pub pos: usize,
}

/// The sequence of velocity values of each step.
///
/// Can be created by calling [`MotionProfile::velocities`].
pub struct Velocities {
    /// The collected velocity values, in the order they were produced.
    pub items: Vec<Fix>,
    /// How many values have been handed out so far.
    pub pos: usize,
}

/// The sequence of acceleration values between consecutive steps, as signed
/// fixed-point bit patterns (32 fractional bits).
///
/// Can be created by calling [`MotionProfile::accelerations`].
pub struct Accelerations {
    /// The collected acceleration values, in the order they were produced.
    pub items: Vec<i128>,
    /// How many values have been handed out so far.
    pub pos: usize,
}

/// The signed fixed-point acceleration between two steps with the given
/// delay bit patterns.
///
/// The velocity of a delay is taken to be reached at the mid-point between
/// the two steps the delay separates, so the time between the two velocity
/// measurements is half of each delay; the acceleration is the velocity
/// difference over that time.
pub open spec fn accel_of(d_prev: int, d_next: int) -> int {
    let v_prev = recip_bits(d_prev);
    let v_next = recip_bits(d_next);
    let dt = d_prev / 2 + d_next / 2;
    if v_next >= v_prev {
        ((v_next - v_prev) * 0x1_0000_0000) / dt
    } else {
        -(((v_prev - v_next) * 0x1_0000_0000) / dt)
    }
}

/// The sign of an acceleration follows the ordering of the two delays: a
/// shrinking delay means speeding up, an unchanged delay means exactly zero
/// acceleration, and a growing delay means slowing down.
pub proof fn lemma_accel_sign(d_prev: int, d_next: int)
    requires
        MIN_DELAY_BITS <= d_prev,
        MIN_DELAY_BITS <= d_next,
    ensures
        d_next == d_prev ==> accel_of(d_prev, d_next) == 0,
        d_next >= d_prev ==> accel_of(d_prev, d_next) <= 0,
        d_next <= d_prev ==> accel_of(d_prev, d_next) >= 0,
{
    let v_prev = recip_bits(d_prev);
    let v_next = recip_bits(d_next);
    let dt = d_prev / 2 + d_next / 2;
    if d_next >= d_prev {
        lemma_recip_bits_bounds(d_prev, d_next);
    } else {
        lemma_recip_bits_bounds(d_next, d_prev);
    }
    if v_next >= v_prev {
        vstd::arithmetic::div_mod::lemma_div_pos_is_pos((v_next - v_prev) * 0x1_0000_0000, dt);
    } else {
        vstd::arithmetic::div_mod::lemma_div_pos_is_pos((v_prev - v_next) * 0x1_0000_0000, dt);
    }
}

/// The acceleration sequence of a delay sequence: one value between each
/// pair of consecutive delays.
pub open spec fn accels_of(ds: Seq<int>) -> Seq<int> {
    if ds.len() == 0 {
        Seq::empty()
    } else {
        Seq::new((ds.len() - 1) as nat, |i: int| accel_of(ds[i], ds[i + 1]))
    }
}

impl Delays {
    /// The values not yet handed out have all been collected.
    pub open spec fn wf(self) -> bool {
        self.pos <= self.items.len()
    }

    /// The bit patterns of the values not yet handed out, in order.
    pub open spec fn remaining(self) -> Seq<int> {
        self.items@.map_values(|f: Fix| f.bits as int).skip(self.pos as int)
    }

    /// Hand out the next delay value, or `None` when all are spent.
    pub fn next(&mut self) -> (r: Option<Fix>)
        requires
            old(self).wf(),
        ensures
            final(self).wf(),
            old(self).remaining().len() == 0 ==> r is None && *final(self) == *old(self),
            old(self).remaining().len() > 0 ==> r is Some && r->Some_0.bits == old(self).remaining()[0] && final(self).remaining() == old(self).remaining().drop_first(),
    {
        if self.pos < self.items.len() {
            let d = self.items[self.pos];
            self.pos = self.pos + 1;
            proof {
                assert(final(self).remaining() =~= old(self).remaining().drop_first());
            }
            Some(d)
        } else {
            None
        }
    }
}

impl Velocities {
    /// The values not yet handed out have all been collected.
    pub open spec fn wf(self) -> bool {
        self.pos <= self.items.len()
    }

    /// The bit patterns of the values not yet handed out, in order.
    pub open spec fn remaining(self) -> Seq<int> {
        self.items@.map_values(|f: Fix| f.bits as int).skip(self.pos as int)
    }

    /// Hand out the next velocity value, or `None` when all are spent.
    pub fn next(&mut self) -> (r: Option<Fix>)
        requires
            old(self).wf(),
        ensures
            final(self).wf(),
            old(self).remaining().len() == 0 ==> r is None && *final(self) == *old(self),
            old(self).remaining().len() > 0 ==> r is Some && r->Some_0.bits == old(self).remaining()[0] && final(self).remaining() == old(self).remaining().drop_first(),
    {
        if self.pos < self.items.len() {
            let v = self.items[self.pos];
            self.pos = self.pos + 1;
            proof {
                assert(final(self).remaining() =~= old(self).remaining().drop_first());
            }
            Some(v)
        } else {
            None
        }
    }
}

impl Accelerations {
    /// The values not yet handed out have all been collected.
    pub open spec fn wf(self) -> bool {
        self.pos <= self.items.len()
    }

    /// The values not yet handed out, in order.
    pub open spec fn remaining(self) -> Seq<int> {
        self.items@.map_values(|x: i128| x as int).skip(self.pos as int)
    }

    /// Drain the profile and collect the acceleration between each pair of
    /// consecutive remaining steps.
    ///
    /// This just calls [`MotionProfile::accelerations`].
    pub fn new<Profile: MotionProfile>(profile: &mut Profile) -> (r: Accelerations)
        requires
            old(profile).inv(),
        ensures
            final(profile).inv(),
            final(profile).future_delays().len() == 0,
            r.wf(),
            r.remaining() == accels_of(old(profile).future_delays()),
    {
        profile.accelerations()
    }

    /// Hand out the next acceleration value, or `None` when all are spent.
    pub fn next(&mut self) -> (r: Option<i128>)
        requires
            old(self).wf(),
        ensures
            final(self).wf(),
            old(self).remaining().len() == 0 ==> r is None && *final(self) == *old(self),
            old(self).remaining().len() > 0 ==> r is Some && r->Some_0 == old(self).remaining()[0]
                && final(self).remaining() == old(self).remaining().drop_first(),
    {
        if self.pos < self.items.len() {
            let a = self.items[self.pos];
            self.pos = self.pos + 1;
            proof {
                assert(final(self).remaining() =~= old(self).remaining().drop_first());
            }
            Some(a)
        } else {
            None
        }
    }
}

/// The signed acceleration between two consecutive steps: the velocity
/// difference over the time between the two steps' mid-points.
pub(crate) fn accel_between(delay_prev: Fix, delay_next: Fix) -> (r: i128)
    requires
        MIN_DELAY_BITS <= delay_prev.bits,
        MIN_DELAY_BITS <= delay_next.bits,
    ensures
        r == accel_of(delay_prev.bits as int, delay_next.bits as int),
{
    let ghost dp = delay_prev.bits as int;
    let ghost dn = delay_next.bits as int;

    let two = fix_add(Fix::one(), Fix::one());
    let velocity_prev = fix_recip(delay_prev);
    let velocity_next = fix_recip(delay_next);

    proof {
        lemma_half_delay(dp);
        lemma_half_delay(dn);
    }
    let time_diff = fix_add(fix_div(delay_prev, two), fix_div(delay_next, two));

    let diff: u64 = if velocity_next.bits >= velocity_prev.bits {
        velocity_next.bits - velocity_prev.bits
    } else {
        velocity_prev.bits - velocity_next.bits
    };
    let magnitude: u128 = ((diff as u128) * 0x1_0000_0000) / (time_diff.bits as u128);
    proof {
        vstd::arithmetic::div_mod::lemma_div_nonincreasing(
            diff * 0x1_0000_0000,
            time_diff.bits as int,
        );
        vstd::arithmetic::div_mod::lemma_div_pos_is_pos(
            diff * 0x1_0000_0000,
            time_diff.bits as int,
        );
    }
    if velocity_next.bits >= velocity_prev.bits {
        magnitude as i128
    } else {
        -(magnitude as i128)
    }
}

/// Halving a delay in fixed-point is plain integer halving of its bits, and
/// the result fits in 64 bits.
proof fn lemma_half_delay(d: int)
    requires
        0 <= d <= u64::MAX,
    ensures
        crate::num::div_bits(d, 0x2_0000_0000) == d / 2,
        0 <= d / 2 <= u64::MAX,
{
    vstd::arithmetic::div_mod::lemma_div_denominator(d * 0x1_0000_0000, 0x1_0000_0000, 2);
    vstd::arithmetic::div_mod::lemma_div_multiples_vanish(d, 0x1_0000_0000);
}

} // verus!
