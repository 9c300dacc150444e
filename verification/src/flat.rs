//! Flat motion profile.
//!
//! See [`Flat`].

use vstd::prelude::*;

use crate::num::{
    fix_recip, lemma_div_bits_anti_den, recip_bits, Fix, FIX_ONE_BITS, MAX_VELOCITY_BITS,
    MIN_DELAY_BITS,
};
use crate::MotionProfile;

verus! {

/// Flat motion profile.
///
/// The simplest possible motion profile: every step of a motion gets the
/// same delay, the reciprocal of the requested maximum velocity. It exists
/// as a degenerate reference case of the shared [`MotionProfile`] interface
/// and as a test fixture; a real motor would see unbounded acceleration at
/// the first and last step.
pub struct Flat {
    /// The delay of every step of the current motion, or `None` when no
    /// motion is armed.
    pub delay: Option<Fix>,
    /// Steps remaining in the current motion.
    pub num_steps: u32,
}

impl Flat {
    /// Create a new instance of `Flat`, with no motion armed.
    pub fn new() -> (r: Flat)
        ensures
            r.delay is None,
            r.num_steps == 0,
    {
        Flat { delay: None, num_steps: 0 }
    }

    /// Return the remaining steps' delays as a sequence of their own.
    ///
    /// Every value yielded is the same. A motion must have been armed with
    /// [`MotionProfile::enter_position_mode`] first.
    pub fn ramp(&self) -> (it: Iter)
        requires
            self.delay is Some,
        ensures
            it.delay == self.delay->Some_0,
            it.num_steps == self.num_steps,
            it.remaining() == self.future_delays(),
    {
        let it = Iter { delay: self.delay.unwrap(), num_steps: self.num_steps };
        proof {
            assert(it.remaining() =~= self.future_delays());
        }
        it
    }
}

impl Default for Flat {
    /// A flat profile with no motion armed.
    fn default() -> (r: Flat)
        ensures
            r.delay is None,
            r.num_steps == 0,
    {
        Flat::new()
    }
}

impl MotionProfile for Flat {
    /// Any armed delay is at least the global minimum delay.
    open spec fn inv(&self) -> bool {
        match self.delay {
            Some(d) => MIN_DELAY_BITS <= d.bits,
            None => true,
        }
    }

    /// The armed delay, repeated once per remaining step.
    open spec fn future_delays(&self) -> Seq<int> {
        match self.delay {
            Some(d) => Seq::new(self.num_steps as nat, |i: int| d.bits as int),
            None => Seq::empty(),
        }
    }

    /// Any velocity within the machine bounds can be armed.
    open spec fn can_arm(&self, max_velocity: Fix, num_steps: u32) -> bool {
        ||| max_velocity.bits == 0
        ||| 2 <= max_velocity.bits <= MAX_VELOCITY_BITS
    }

    /// Every delay of a flat motion equals the armed delay.
    open spec fn floor_of(&self) -> int {
        match self.delay {
            Some(d) => d.bits as int,
            None => MIN_DELAY_BITS as int,
        }
    }

    /// A flat motion's delays all equal the velocity's reciprocal.
    open spec fn arming_floor(&self, max_velocity: Fix) -> int {
        recip_bits(max_velocity.bits as int)
    }

    /// Arm a motion of `num_steps` steps, every one at the delay
    /// `1 / max_velocity`; a zero velocity arms a defined no-op motion.
    fn enter_position_mode(&mut self, max_velocity: Fix, num_steps: u32)
        ensures
            final(self).delay == if max_velocity.bits == 0 {
                Option::<Fix>::None
            } else {
                Option::Some(Fix { bits: recip_bits(max_velocity.bits as int) as u64 })
            },
            final(self).num_steps == num_steps,
    {
        self.delay = if max_velocity.is_zero() {
            None
        } else {
            proof {
                lemma_div_bits_anti_den(
                    FIX_ONE_BITS as int,
                    max_velocity.bits as int,
                    MAX_VELOCITY_BITS as int,
                );
                assert(recip_bits(MAX_VELOCITY_BITS as int) == MIN_DELAY_BITS);
            }
            Some(fix_recip(max_velocity))
        };
        self.num_steps = num_steps;
    }

    /// Hand out the armed delay once per remaining step.
    fn next_delay(&mut self) -> (r: Option<Fix>)
        ensures
            *final(self) == (Flat {
                num_steps: if old(self).future_delays().len() == 0 {
                    old(self).num_steps
                } else {
                    (old(self).num_steps - 1) as u32
                },
                ..*old(self)
            }),
    {
        let delay = match self.delay {
            Some(delay) => delay,
            None => {
                return None;
            },
        };
        if self.num_steps == 0 {
            return None;
        }
        self.num_steps = self.num_steps - 1;
        proof {
            assert(self.future_delays() =~= old(self).future_delays().drop_first());
            assert(self.floor_of() == old(self).floor_of());
        }
        Some(delay)
    }
}

/// The sequence returned by [`Flat::ramp`]: one delay value per step.
pub struct Iter {
    /// The delay of every step.
    pub delay: Fix,
    /// Steps not yet handed out.
    pub num_steps: u32,
}

impl Iter {
    /// The bit patterns of the values not yet handed out.
    pub open spec fn remaining(self) -> Seq<int> {
        Seq::new(self.num_steps as nat, |i: int| self.delay.bits as int)
    }

    /// Hand out the next delay value, or `None` when all are spent.
    pub fn next(&mut self) -> (r: Option<Fix>)
        ensures
            final(self).delay == old(self).delay,
            old(self).num_steps == 0 ==> r is None && *final(self) == *old(self),
            old(self).num_steps > 0 ==> r == Option::Some(old(self).delay)
                && final(self).num_steps == old(self).num_steps - 1,
    {
        if self.num_steps == 0 {
            return None;
        }
        self.num_steps = self.num_steps - 1;
        Some(self.delay)
    }
}

} // verus!
