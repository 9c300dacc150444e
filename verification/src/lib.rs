//! Motion profile generators for stepper motors.
//!
//! A motion profile turns a request of the form "move this many steps, at
//! most this fast" into one delay value per step: the time to wait between
//! two successive step pulses. The delays of the trapezoidal profile ramp
//! the velocity up at a configured target acceleration, hold it at the
//! requested maximum, and ramp it back down so the motor comes to rest
//! exactly on the last step. A flat profile, which holds one constant
//! velocity for the whole motion, exists as a degenerate reference case.
//!
//! All quantities are fixed-point numbers ([`num::Fix`]); the arithmetic
//! itself comes from the `fixed` crate and is specified bit-exactly, so
//! every contract in this crate pins down the raw bit pattern of what a
//! profile produces.
//!
//! The global guarantees of the trapezoidal engine — exact step counts,
//! bounded delays, the behavior of the ramp phases, and re-arming that
//! forgets any unfinished motion — are stated and proved as the public
//! lemmas of [`trapezoidal`].

use vstd::prelude::*;

pub mod flat;
pub mod iter;
pub mod num;
pub mod trapezoidal;
pub mod util;

pub use crate::flat::Flat;
pub use crate::trapezoidal::Trapezoidal;

use crate::iter::{accel_between, accels_of, Accelerations, Delays, Velocities};
use crate::num::{fix_recip, recip_bits, Fix, MIN_DELAY_BITS};

verus! {

/// Abstract interface for motion profiles.
///
/// Implemented by all motion profiles in this crate. Code that does not care
/// which profile produces the delays can be written against this trait; its
/// contracts describe every profile through three specification functions:
/// an invariant over the profile's state, the conditions under which a
/// motion request is accepted, and the sequence of delay bit patterns the
/// profile still owes.
pub trait MotionProfile: Sized {
    /// Invariant satisfied by every reachable state of the profile.
    spec fn inv(&self) -> bool;

    /// The bit patterns of the delays the profile will produce before it
    /// next reports completion, in order.
    spec fn future_delays(&self) -> Seq<int>;

    /// The profile accepts this motion request.
    spec fn can_arm(&self, max_velocity: Fix, num_steps: u32) -> bool;

    /// A lower bound on the bit pattern of every delay this state will
    /// produce.
    spec fn floor_of(&self) -> int;

    /// The delay floor that a motion armed at `max_velocity` will have; a
    /// profile that respects the maximum velocity has a floor of at least
    /// the velocity's reciprocal.
    spec fn arming_floor(&self, max_velocity: Fix) -> int;

    /// Enter position mode: (re-)arm a motion that takes `num_steps` steps
    /// (relative to the current position; profiles keep no absolute
    /// position) at a velocity of at most `max_velocity`, and comes to a
    /// stand-still at the target step.
    ///
    /// A zero `max_velocity` arms a defined no-op motion that completes on
    /// the first pull. Re-arming before the previous motion has finished
    /// silently discards the unfinished motion.
    fn enter_position_mode(&mut self, max_velocity: Fix, num_steps: u32)
        requires
            old(self).inv(),
            old(self).can_arm(max_velocity, num_steps),
        ensures
            final(self).inv(),
            final(self).future_delays().len() == if max_velocity.bits == 0 {
                0nat
            } else {
                num_steps as nat
            },
            max_velocity.bits != 0 ==> final(self).floor_of() == old(self).arming_floor(
                max_velocity,
            ),
    ;

    /// Return the next step delay, or `None` when no more steps need to be
    /// taken (the target step was reached, or the armed velocity was zero).
    ///
    /// Profiles yield one value per step, even though only `n - 1` delays
    /// separate `n` steps; the extra delay keeps the natural use — one step
    /// per value, in a loop — safe from off-by-one misuse.
    fn next_delay(&mut self) -> (r: Option<Fix>)
        requires
            old(self).inv(),
        ensures
            final(self).inv(),
            old(self).future_delays().len() == 0 ==> r is None && *final(self) == *old(self),
            old(self).future_delays().len() > 0 ==> r is Some && r->Some_0.bits == old(self).future_delays()[0] && final(self).future_delays() == old(self).future_delays().drop_first(),
            r is Some ==> MIN_DELAY_BITS <= r->Some_0.bits,
            r is Some ==> old(self).floor_of() <= r->Some_0.bits,
            final(self).floor_of() == old(self).floor_of(),
    ;

    /// Drain the profile and return the delay values of each remaining
    /// step, in order, as a sequence to iterate over.
    ///
    /// This is a convenience method that just calls
    /// [`MotionProfile::next_delay`] until completion.
    fn delays(&mut self) -> (r: Delays)
        requires
            old(self).inv(),
        ensures
            final(self).inv(),
            final(self).future_delays().len() == 0,
            r.wf(),
            r.remaining() == old(self).future_delays(),
    {
        let ghost original = self.future_delays();
        let mut items: Vec<Fix> = Vec::new();
        loop
            invariant
                self.inv(),
                original == items@.map_values(|f: Fix| f.bits as int) + self.future_delays(),
            ensures
                self.inv(),
                self.future_delays().len() == 0,
                original == items@.map_values(|f: Fix| f.bits as int),
            decreases self.future_delays().len(),
        {
            let ghost before = items@;
            match self.next_delay() {
                Some(delay) => {
                    items.push(delay);
                    proof {
                        assert(items@.map_values(|f: Fix| f.bits as int) =~= before.map_values(
                            |f: Fix| f.bits as int,
                        ).push(delay.bits as int));
                    }
                },
                None => {
                    break ;
                },
            }
        }
        Delays { items, pos: 0 }
    }

    /// Drain the profile and return the velocity reached at each remaining
    /// step — the reciprocal of each delay — in order.
    ///
    /// This is mainly useful for testing and debugging.
    fn velocities(&mut self) -> (r: Velocities)
        requires
            old(self).inv(),
        ensures
            final(self).inv(),
            final(self).future_delays().len() == 0,
            r.wf(),
            r.remaining() == old(self).future_delays().map_values(|b: int| recip_bits(b)),
    {
        let ghost original = self.future_delays();
        let mut items: Vec<Fix> = Vec::new();
        loop
            invariant
                self.inv(),
                original.map_values(|b: int| recip_bits(b)) == items@.map_values(
                    |f: Fix| f.bits as int,
                ) + self.future_delays().map_values(|b: int| recip_bits(b)),
                original.len() == items@.len() + self.future_delays().len(),
            ensures
                self.inv(),
                self.future_delays().len() == 0,
                original.map_values(|b: int| recip_bits(b)) == items@.map_values(
                    |f: Fix| f.bits as int,
                ),
            decreases self.future_delays().len(),
        {
            let ghost before = items@;
            let ghost future_before = self.future_delays();
            match self.next_delay() {
                Some(delay) => {
                    items.push(fix_recip(delay));
                    proof {
                        assert(items@.map_values(|f: Fix| f.bits as int) =~= before.map_values(
                            |f: Fix| f.bits as int,
                        ).push(recip_bits(delay.bits as int)));
                        assert(future_before.map_values(|b: int| recip_bits(b)).drop_first()
                            =~= self.future_delays().map_values(|b: int| recip_bits(b)));
                        assert(original.map_values(|b: int| recip_bits(b)) =~= items@.map_values(
                            |f: Fix| f.bits as int,
                        ) + self.future_delays().map_values(|b: int| recip_bits(b)));
                    }
                },
                None => {
                    break ;
                },
            }
        }
        Velocities { items, pos: 0 }
    }

    /// Drain the profile and return the acceleration between each pair of
    /// consecutive remaining steps, in order.
    ///
    /// This is mainly useful for testing and debugging.
    fn accelerations(&mut self) -> (r: Accelerations)
        requires
            old(self).inv(),
        ensures
            final(self).inv(),
            final(self).future_delays().len() == 0,
            r.wf(),
            r.remaining() == accels_of(old(self).future_delays()),
    {
        let ghost original = self.future_delays();
        let mut items: Vec<i128> = Vec::new();

        let first = self.next_delay();
        let mut delay_prev = match first {
            Some(delay) => delay,
            None => {
                proof {
                    assert(accels_of(original) =~= items@.map_values(|x: i128| x as int).skip(0));
                }
                return Accelerations { items, pos: 0 };
            },
        };

        let ghost mut consumed: int = 1;
        loop
            invariant
                self.inv(),
                1 <= consumed <= original.len(),
                self.future_delays() == original.skip(consumed),
                delay_prev.bits == original[consumed - 1],
                MIN_DELAY_BITS <= delay_prev.bits,
                items@.map_values(|x: i128| x as int) == accels_of(original).take(consumed - 1),
            ensures
                self.inv(),
                self.future_delays().len() == 0,
                items@.map_values(|x: i128| x as int) == accels_of(original),
            decreases original.len() - consumed,
        {
            let ghost items_before = items@;
            match self.next_delay() {
                Some(delay_next) => {
                    proof {
                        assert(delay_next.bits == original[consumed]);
                    }
                    let accel = accel_between(delay_prev, delay_next);
                    items.push(accel);
                    delay_prev = delay_next;
                    proof {
                        assert(self.future_delays() =~= original.skip(consumed + 1));
                        assert(items@.map_values(|x: i128| x as int) =~= items_before.map_values(
                            |x: i128| x as int,
                        ).push(accel as int));
                        assert(items@.map_values(|x: i128| x as int) =~= accels_of(original).take(
                            consumed,
                        ));
                        consumed = consumed + 1;
                    }
                },
                None => {
                    proof {
                        assert(consumed == original.len());
                        assert(items@.map_values(|x: i128| x as int) =~= accels_of(original));
                    }
                    break ;
                },
            }
        }
        proof {
            assert(accels_of(original) =~= items@.map_values(|x: i128| x as int).skip(0));
        }
        Accelerations { items, pos: 0 }
    }
}

} // verus!
