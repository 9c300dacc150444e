//! Trapezoidal motion profile.
//!
//! See [`Trapezoidal`].

use vstd::prelude::*;

use crate::num::{
    ceil_bits, div_bits, fix_add, fix_ceil, fix_div, fix_int_u32, fix_mul, fix_recip, fix_sqrt,
    fix_sub, is_isqrt, lemma_div_bits_anti_den, lemma_div_bits_fundamental, lemma_div_bits_le_num,
    lemma_mul_bits_by_factor, lemma_mul_bits_le, lemma_recip_bits_bounds, mul_bits, recip_bits,
    Fix, FIX_ONE_BITS, MAX_VELOCITY_BITS, MIN_DELAY_BITS,
};
use crate::MotionProfile;

verus! {

/// Largest accepted bit pattern for the target acceleration (`2^63 - 2^48`).
///
/// Keeping the acceleration below this bound keeps every intermediate value
/// of the engine's arithmetic inside 64 bits.
pub const MAX_TARGET_ACCEL_BITS: u64 = 0x7FFF_0000_0000_0000;

/// Trapezoidal motion profile.
///
/// Generates an approximation of a trapezoidal ramp: one delay value per
/// step such that the motor accelerates at a configured target acceleration,
/// holds the configured maximum velocity, and decelerates to rest on the
/// final step. The update rule is a second-order expansion of the exact
/// triangular-ramp recurrence; ramp-up and ramp-down share its shape, and
/// the plateau comes solely from clamping at the minimum delay.
///
/// The initial velocity is always zero: the profile starts and stops at a
/// stand-still.
///
/// The fields are public so that the contracts can speak about them, but
/// they should be treated as read-only; use [`Trapezoidal::new`] and the
/// motion-profile methods to drive the engine.
pub struct Trapezoidal {
    /// Smallest delay that may be produced: the reciprocal of the maximum
    /// velocity of the current motion, or `None` when no motion is armed
    /// because the requested maximum velocity was zero.
    pub delay_min: Option<Fix>,
    /// Largest delay that may be produced: `1 / sqrt(2 * target_accel)`,
    /// the delay of the first step of a ramp starting from rest.
    pub delay_initial: Fix,
    /// The delay produced most recently (or `delay_initial` at rest).
    pub delay_prev: Fix,
    /// The acceleration targeted during ramp-up and ramp-down; fixed at
    /// construction.
    pub target_accel: Fix,
    /// Steps remaining in the current motion; zero means idle.
    pub steps_left: u32,
}

/// The smaller of two integers.
pub open spec fn min_int(a: int, b: int) -> int {
    if a <= b {
        a
    } else {
        b
    }
}

/// `d0` is the initial delay derived from a target acceleration with bit
/// pattern `a`: one divided by the fixed-point square root of `2 * a`.
pub open spec fn is_initial_delay(a: int, d0: int) -> bool {
    exists|s: int|
        #[trigger] is_isqrt(2 * a, s) && d0 == div_bits(FIX_ONE_BITS as int, s * 0x1_0000)
}

/// The steps-to-stop computation from a delay of `d` bits fits the 64-bit
/// arithmetic and the 32-bit step counter, given acceleration bits `a`.
pub open spec fn sts_fits(a: int, d: int) -> bool {
    div_bits(mul_bits(recip_bits(d), recip_bits(d)), 2 * a) <= 0xFFFF_FFFF_0000_0000
}

/// The operating mode of the trapezoidal engine for one step, derived
/// afresh on every call from the engine's fields; no mode is stored.
pub enum RampMode {
    /// No motion is armed, or no steps are left.
    Idle,
    /// Accelerate: the delay shrinks, clamped below at `delay_min`.
    RampUp {
        /// The smallest delay allowed, from the armed maximum velocity.
        delay_min: Fix,
    },
    /// Hold the maximum velocity: the delay stays unchanged.
    Plateau,
    /// Decelerate so that the motion stops on the final step.
    RampDown,
}

impl Trapezoidal {
    /// Structural invariant: every reachable engine state satisfies this.
    pub open spec fn wf(self) -> bool {
        let a = self.target_accel.bits as int;
        let d0 = self.delay_initial.bits as int;
        &&& 1 <= self.target_accel.bits <= MAX_TARGET_ACCEL_BITS
        &&& MIN_DELAY_BITS <= self.delay_initial.bits <= 0x1_0000_0000_0000
        &&& 0x40_0000_0000_0000_0000_0000 <= a * d0 * d0 <= 0x1_0000_0000_0000_0000_0000_0000
        &&& MIN_DELAY_BITS <= self.delay_prev.bits <= self.delay_initial.bits
        &&& match self.delay_min {
            Some(m) => {
                &&& MIN_DELAY_BITS <= m.bits
                &&& min_int(m.bits as int, d0) <= self.delay_prev.bits
                &&& sts_fits(a, min_int(m.bits as int, d0))
            },
            None => true,
        }
    }

    /// How many delays the engine still owes before reporting completion.
    pub open spec fn pending(self) -> nat {
        if self.delay_min is Some {
            self.steps_left as nat
        } else {
            0
        }
    }

    /// The velocity corresponding to the most recent delay, in bits.
    pub open spec fn spec_velocity(self) -> int {
        recip_bits(self.delay_prev.bits as int)
    }

    /// The number of steps needed to come to a stop from the current
    /// velocity, decelerating at the target acceleration:
    /// `ceil(v^2 / (2 * target_accel))`, in whole steps.
    pub open spec fn spec_steps_to_stop(self) -> int {
        let v = self.spec_velocity();
        let raw = div_bits(mul_bits(v, v), 2 * self.target_accel.bits);
        ceil_bits(raw) / 0x1_0000_0000
    }

    /// The operating mode for the next step, as a pure function of
    /// `delay_min`, `delay_prev`, `steps_left` and `target_accel`.
    pub open spec fn spec_mode(self) -> RampMode {
        match self.delay_min {
            None => RampMode::Idle,
            Some(m) => if self.steps_left == 0 {
                RampMode::Idle
            } else if self.steps_left <= self.spec_steps_to_stop() {
                RampMode::RampDown
            } else if self.delay_prev.bits <= m.bits {
                RampMode::Plateau
            } else {
                RampMode::RampUp { delay_min: m }
            },
        }
    }

    /// The quantity `q = target_accel * delay_prev^2` of the update rule,
    /// evaluated in fixed-point exactly as the engine computes it.
    pub open spec fn spec_q(self) -> int {
        let a = self.target_accel.bits as int;
        let d = self.delay_prev.bits as int;
        mul_bits(mul_bits(a, d), d)
    }

    /// The second-order correction term `1.5 * q^2` of the update rule,
    /// evaluated in fixed-point exactly as the engine computes it.
    pub open spec fn spec_correction(self) -> int {
        let q = self.spec_q();
        mul_bits(mul_bits(0x1_8000_0000, q), q)
    }

    /// The bit pattern of the delay produced next, when a step is owed:
    /// the update rule of the current mode, clamped below at `delay_min`
    /// during ramp-up and above at `delay_initial` in every mode.
    pub open spec fn spec_next_delay_bits(self) -> int {
        let d = self.delay_prev.bits as int;
        let d0 = self.delay_initial.bits as int;
        let q = self.spec_q();
        let c = self.spec_correction();
        match self.spec_mode() {
            RampMode::Idle => d,
            RampMode::RampUp { delay_min: m } => {
                let raw = mul_bits(d, 0x1_0000_0000 - q + c);
                let clamped = if raw < m.bits as int {
                    m.bits as int
                } else {
                    raw
                };
                min_int(clamped, d0)
            },
            RampMode::Plateau => min_int(d, d0),
            RampMode::RampDown => min_int(mul_bits(d, 0x1_0000_0000 + q + c), d0),
        }
    }

    /// The engine state after one call of `next_delay`: unchanged when
    /// idle, otherwise the next delay is recorded and a step is consumed.
    pub open spec fn spec_step(self) -> Trapezoidal {
        if self.spec_mode() is Idle {
            self
        } else {
            Trapezoidal {
                delay_prev: Fix { bits: self.spec_next_delay_bits() as u64 },
                steps_left: (self.steps_left - 1) as u32,
                ..self
            }
        }
    }

    /// The engine state after re-arming with a maximum velocity and step
    /// count: a function of the new arguments and the construction-time
    /// fields alone, so re-arming discards any unfinished motion.
    pub open spec fn spec_rearmed(self, max_velocity: Fix, num_steps: u32) -> Trapezoidal {
        Trapezoidal {
            delay_min: if max_velocity.bits == 0 {
                None
            } else {
                Some(Fix { bits: recip_bits(max_velocity.bits as int) as u64 })
            },
            delay_prev: self.delay_initial,
            steps_left: num_steps,
            ..self
        }
    }

    /// The engine accepts this motion request: the velocity is zero (a
    /// defined no-op motion) or within the machine bounds, with a
    /// steps-to-stop value that fits the 32-bit step counter. The latter
    /// holds of itself when the velocity stays at or below the first step's
    /// velocity, whose delay is `delay_initial`.
    pub open spec fn spec_can_arm(self, max_velocity: Fix, num_steps: u32) -> bool {
        ||| max_velocity.bits == 0
        ||| {
            &&& 2 <= max_velocity.bits <= MAX_VELOCITY_BITS
            &&& {
                ||| recip_bits(max_velocity.bits as int) >= self.delay_initial.bits
                ||| sts_fits(
                    self.target_accel.bits as int,
                    recip_bits(max_velocity.bits as int),
                )
            }
        }
    }

    /// The bit patterns of all delays the engine will produce before it
    /// reports completion, in order.
    pub open spec fn spec_delays(self) -> Seq<int>
        decreases self.steps_left,
    {
        if self.spec_mode() is Idle {
            Seq::empty()
        } else {
            seq![self.spec_next_delay_bits()] + self.spec_step().spec_delays()
        }
    }

    /// Create a new trapezoidal profile for the given target acceleration
    /// (in steps per unit of time squared).
    ///
    /// The target acceleration must not be zero, since the initial delay is
    /// derived from its reciprocal; the upper bound keeps the engine's
    /// fixed-point arithmetic inside 64 bits.
    pub fn new(target_accel: Fix) -> (r: Trapezoidal)
        requires
            1 <= target_accel.bits <= MAX_TARGET_ACCEL_BITS,
        ensures
            r.wf(),
            r.target_accel == target_accel,
            r.delay_min is None,
            r.steps_left == 0,
            r.delay_prev == r.delay_initial,
            is_initial_delay(target_accel.bits as int, r.delay_initial.bits as int),
    {
        // Equation: initial_delay = 1 / sqrt(2 * target_accel).
        let two = fix_add(Fix::one(), Fix::one());
        let twice_accel = fix_mul(two, target_accel);
        proof {
            lemma_twice_accel_exact(target_accel.bits as int);
        }
        let root = fix_sqrt(twice_accel);
        proof {
            lemma_initial_delay_bounds(target_accel.bits as int, root.bits as int);
        }
        let initial_delay = fix_div(Fix::one(), root);

        Trapezoidal {
            delay_min: None,
            delay_initial: initial_delay,
            delay_prev: initial_delay,
            target_accel,
            steps_left: 0,
        }
    }
}

impl Default for Trapezoidal {
    /// A trapezoidal profile with a target acceleration of 6000 steps per
    /// unit of time squared, the configuration the reusable checks in
    /// [`crate::util::testing`] run with.
    fn default() -> (r: Trapezoidal)
        ensures
            r.wf(),
            r.delay_min is None,
            r.steps_left == 0,
            r.delay_prev == r.delay_initial,
            r.target_accel.bits == 6000 * 0x1_0000_0000,
            is_initial_delay((6000 * 0x1_0000_0000) as int, r.delay_initial.bits as int),
    {
        Trapezoidal::new(Fix::from_int(6000))
    }
}

/// The larger of a value and a lower bound (`num_traits::clamp_min`'s rule).
fn clamp_min(x: Fix, lo: Fix) -> (r: Fix)
    ensures
        r.bits as int == if (x.bits as int) < lo.bits as int {
            lo.bits as int
        } else {
            x.bits as int
        },
{
    if x.bits < lo.bits {
        lo
    } else {
        x
    }
}

/// The smaller of a value and an upper bound (`num_traits::clamp_max`'s rule).
fn clamp_max(x: Fix, hi: Fix) -> (r: Fix)
    ensures
        r.bits as int == min_int(x.bits as int, hi.bits as int),
{
    if x.bits > hi.bits {
        hi
    } else {
        x
    }
}

impl MotionProfile for Trapezoidal {
    /// The engine's structural invariant.
    open spec fn inv(&self) -> bool {
        self.wf()
    }

    /// The delays the engine will produce, as given by its step function.
    open spec fn future_delays(&self) -> Seq<int> {
        self.spec_delays()
    }

    /// Velocity within the machine bounds, and a steps-to-stop value that
    /// fits the 32-bit step counter at every velocity of the motion.
    open spec fn can_arm(&self, max_velocity: Fix, num_steps: u32) -> bool {
        self.spec_can_arm(max_velocity, num_steps)
    }

    /// No delay falls below the armed minimum delay, except that the
    /// initial delay caps it.
    open spec fn floor_of(&self) -> int {
        match self.delay_min {
            Some(m) => min_int(m.bits as int, self.delay_initial.bits as int),
            None => self.delay_initial.bits as int,
        }
    }

    /// The floor of a motion at `max_velocity`: the velocity's reciprocal,
    /// capped at the initial delay.
    open spec fn arming_floor(&self, max_velocity: Fix) -> int {
        min_int(recip_bits(max_velocity.bits as int), self.delay_initial.bits as int)
    }

    /// Enter position mode: (re-)arm a motion of `num_steps` steps with the
    /// given maximum velocity (in steps per unit of time).
    ///
    /// A zero maximum velocity arms a defined no-op motion: the next pull
    /// reports completion at once, whatever `num_steps` says. Re-arming
    /// silently discards any unfinished motion; the new state depends only
    /// on the new arguments and the construction-time fields.
    fn enter_position_mode(&mut self, max_velocity: Fix, num_steps: u32)
        ensures
            *final(self) == old(self).spec_rearmed(max_velocity, num_steps),
    {
        // Equation: delay_min = 1 / max_velocity.
        self.delay_min = if max_velocity.is_zero() {
            None
        } else {
            proof {
                lemma_div_bits_anti_den(
                    FIX_ONE_BITS as int,
                    max_velocity.bits as int,
                    MAX_VELOCITY_BITS as int,
                );
                assert(recip_bits(MAX_VELOCITY_BITS as int) == MIN_DELAY_BITS);
            }
            Some(fix_recip(max_velocity))
        };
        // The motion starts from rest: the previous delay is re-seeded with
        // the initial delay.
        self.delay_prev = self.delay_initial;
        self.steps_left = num_steps;
        proof {
            lemma_future_delays_len(*self);
            if max_velocity.bits != 0 && recip_bits(max_velocity.bits as int)
                >= self.delay_initial.bits as int {
                lemma_sts_fits_at_initial(
                    self.target_accel.bits as int,
                    self.delay_initial.bits as int,
                );
            }
        }
    }

    /// Produce the delay for the next step, or `None` when the motion is
    /// complete (no steps left, or no motion armed).
    ///
    /// The produced delay never exceeds `delay_initial`, and never falls
    /// below `delay_min` whenever `delay_min <= delay_initial` (that is,
    /// whenever the armed maximum velocity is at least the velocity of the
    /// first step). The delay holds steady on the plateau, grows during
    /// ramp-down, and shrinks during ramp-up except where the second-order
    /// correction of the update rule outweighs its first-order term (which
    /// happens only at very low velocities, where the clamp at
    /// `delay_initial` takes over).
    fn next_delay(&mut self) -> (r: Option<Fix>)
        ensures
            *final(self) == old(self).spec_step(),
            r == (if old(self).spec_mode() is Idle {
                Option::<Fix>::None
            } else {
                Option::Some(Fix { bits: old(self).spec_next_delay_bits() as u64 })
            }),
            r matches Some(next) ==> next.bits <= old(self).delay_initial.bits,
            r is Some && old(self).delay_min is Some
                && old(self).delay_min->Some_0.bits <= old(self).delay_initial.bits
                ==> old(self).delay_min->Some_0.bits <= r->Some_0.bits,
            old(self).spec_mode() is Plateau ==> r->Some_0.bits == old(self).delay_prev.bits,
            old(self).spec_mode() is RampDown ==> r->Some_0.bits >= old(self).delay_prev.bits,
            (old(self).spec_mode() matches RampMode::RampUp { .. }
                && old(self).spec_correction() <= old(self).spec_q())
                ==> r->Some_0.bits <= old(self).delay_prev.bits,
    {
        let mode = RampMode::compute(self);

        let ghost a = self.target_accel.bits as int;
        let ghost d = self.delay_prev.bits as int;
        let ghost d0 = self.delay_initial.bits as int;

        let two = fix_add(Fix::one(), Fix::one());
        let three = fix_add(two, Fix::one());
        let one_five = fix_div(three, two);
        proof {
            vstd::arithmetic::div_mod::lemma_div_multiples_vanish(0x1_8000_0000, 0x2_0000_0000);
            assert(three.bits * 0x1_0000_0000 == 0x2_0000_0000 * 0x1_8000_0000);
            lemma_q_and_correction_bounds(a, d, d0);
        }

        // The delay for the next step, from the second-order expansion of
        // the exact ramp recurrence: with q = accel * delay^2 and a
        // correction of 1.5 * q^2, the delay shrinks by the factor
        // (1 - q + correction) during ramp-up and grows by (1 + q +
        // correction) during ramp-down.
        let q = fix_mul(fix_mul(self.target_accel, self.delay_prev), self.delay_prev);
        let correction = fix_mul(fix_mul(one_five, q), q);
        let delay_next = match mode {
            RampMode::Idle => {
                proof {
                    lemma_future_delays_len(*self);
                }
                return None;
            },
            RampMode::RampUp { delay_min } => {
                proof {
                    lemma_mul_bits_by_factor(
                        d,
                        0x1_0000_0000 - q.bits as int + correction.bits as int,
                    );
                }
                let delay_next = fix_mul(
                    self.delay_prev,
                    fix_add(fix_sub(Fix::one(), q), correction),
                );
                clamp_min(delay_next, delay_min)
            },
            RampMode::Plateau => self.delay_prev,
            RampMode::RampDown => {
                proof {
                    lemma_mul_bits_by_factor(
                        d,
                        0x1_0000_0000 + q.bits as int + correction.bits as int,
                    );
                }
                fix_mul(self.delay_prev, fix_add(fix_add(Fix::one(), q), correction))
            },
        };

        // Clamp above at the initial delay, which guards against overshoot
        // at very low velocities.
        let delay_next = clamp_max(delay_next, self.delay_initial);

        self.delay_prev = delay_next;
        self.steps_left = self.steps_left - 1;

        proof {
            lemma_future_delays_len(*old(self));
            assert(old(self).spec_delays() =~= seq![old(self).spec_next_delay_bits()]
                + self.spec_delays());
            assert(self.spec_delays() =~= old(self).spec_delays().drop_first());
            assert(self.delay_min == old(self).delay_min);
            assert(self.floor_of() == old(self).floor_of());
            assert(self.wf());
            assert(old(self).floor_of() <= delay_next.bits as int);
        }
        Some(delay_next)
    }
}

/// One step of a well-formed engine stays well-formed, keeps the
/// construction-time fields and the armed minimum delay, and produces a
/// delay inside the engine's bounds, with the sign of its change fixed by
/// the operating mode.
pub proof fn lemma_step_properties(t: Trapezoidal)
    requires
        t.wf(),
    ensures
        t.spec_step().wf(),
        t.spec_step().delay_min == t.delay_min,
        t.spec_step().delay_initial == t.delay_initial,
        t.spec_step().target_accel == t.target_accel,
        !(t.spec_mode() is Idle) ==> {
            &&& MIN_DELAY_BITS <= t.spec_next_delay_bits() <= t.delay_initial.bits
            &&& t.spec_step().steps_left == t.steps_left - 1
            &&& t.spec_step().delay_prev.bits == t.spec_next_delay_bits()
        },
        !(t.spec_mode() is Idle) && t.delay_min->Some_0.bits <= t.delay_initial.bits
            ==> t.delay_min->Some_0.bits <= t.spec_next_delay_bits(),
        t.spec_mode() is Plateau ==> t.spec_next_delay_bits() == t.delay_prev.bits,
        t.spec_mode() is RampDown ==> t.spec_next_delay_bits() >= t.delay_prev.bits,
        t.spec_mode() matches RampMode::RampUp { .. } && t.spec_correction() <= t.spec_q()
            ==> t.spec_next_delay_bits() <= t.delay_prev.bits,
{
    let a = t.target_accel.bits as int;
    let d = t.delay_prev.bits as int;
    let d0 = t.delay_initial.bits as int;
    if !(t.spec_mode() is Idle) {
        let q = t.spec_q();
        let c = t.spec_correction();
        lemma_q_and_correction_bounds(a, d, d0);
        match t.spec_mode() {
            RampMode::Idle => {},
            RampMode::RampUp { delay_min: m } => {
                lemma_mul_bits_by_factor(d, 0x1_0000_0000 - q + c);
                lemma_div_bits_like_fundamental_mul(d, 0x1_0000_0000 - q + c);
            },
            RampMode::Plateau => {},
            RampMode::RampDown => {
                lemma_mul_bits_by_factor(d, 0x1_0000_0000 + q + c);
            },
        }
    }
}

/// Law (step-count exactness): arming a well-formed engine owes exactly the
/// requested number of steps when the maximum velocity is positive, and
/// exactly zero delays when it is zero.
pub proof fn lemma_step_count_exact(t: Trapezoidal, max_velocity: Fix, num_steps: u32)
    ensures
        t.spec_rearmed(max_velocity, num_steps).spec_delays().len() == if max_velocity.bits
            == 0 {
            0nat
        } else {
            num_steps as nat
        },
{
    lemma_future_delays_len(t.spec_rearmed(max_velocity, num_steps));
}

/// The engine owes exactly `pending()` more delays.
pub proof fn lemma_future_delays_len(t: Trapezoidal)
    ensures
        t.spec_delays().len() == t.pending(),
    decreases t.steps_left,
{
    if !(t.spec_mode() is Idle) {
        lemma_future_delays_len(t.spec_step());
    }
}

/// Law (bounded delay invariant): when the armed minimum delay does not
/// exceed the initial delay — that is, when the requested maximum velocity
/// is at least the velocity of the first step — every delay the engine will
/// produce lies between the two.
pub proof fn lemma_bounded_delay_invariant(t: Trapezoidal)
    requires
        t.wf(),
        t.delay_min is Some,
        t.delay_min->Some_0.bits <= t.delay_initial.bits,
    ensures
        forall|i: int|
            0 <= i < t.spec_delays().len() ==> t.delay_min->Some_0.bits
                <= #[trigger] t.spec_delays()[i] <= t.delay_initial.bits,
    decreases t.steps_left,
{
    if !(t.spec_mode() is Idle) {
        lemma_step_properties(t);
        lemma_bounded_delay_invariant(t.spec_step());
        assert forall|i: int| 0 <= i < t.spec_delays().len() implies t.delay_min->Some_0.bits
            <= #[trigger] t.spec_delays()[i] <= t.delay_initial.bits by {
            if i > 0 {
                assert(t.spec_delays()[i] == t.spec_step().spec_delays()[i - 1]);
            }
        }
    }
}

/// Law (monotonic phases, plateau part): from the plateau the engine never
/// returns to ramp-up; only the plateau itself, ramp-down, or completion
/// can follow.
pub proof fn lemma_plateau_does_not_resume_ramp_up(t: Trapezoidal)
    requires
        t.wf(),
        t.spec_mode() is Plateau,
    ensures
        !(t.spec_step().spec_mode() matches RampMode::RampUp { .. }),
{
    lemma_step_properties(t);
}

/// Law (monotonic phases, one step): the finite-difference acceleration
/// between the engine's most recent delay and the one it will produce next
/// is exactly zero on the plateau, at most zero during ramp-down, and at
/// least zero during ramp-up as long as the update rule's second-order
/// correction does not outweigh its first-order term (the correction wins
/// only at very low velocities, where the clamp at the initial delay takes
/// over).
pub proof fn lemma_phase_acceleration_signs(t: Trapezoidal)
    requires
        t.wf(),
    ensures
        t.spec_mode() is Plateau ==> crate::iter::accel_of(
            t.delay_prev.bits as int,
            t.spec_next_delay_bits(),
        ) == 0,
        t.spec_mode() is RampDown ==> crate::iter::accel_of(
            t.delay_prev.bits as int,
            t.spec_next_delay_bits(),
        ) <= 0,
        t.spec_mode() matches RampMode::RampUp { .. } && t.spec_correction() <= t.spec_q()
            ==> crate::iter::accel_of(t.delay_prev.bits as int, t.spec_next_delay_bits()) >= 0,
{
    lemma_step_properties(t);
    if !(t.spec_mode() is Idle) {
        crate::iter::lemma_accel_sign(t.delay_prev.bits as int, t.spec_next_delay_bits());
    }
}

/// Law (idempotent re-arming): the state after entering position mode is a
/// function of the new arguments and the construction-time fields alone, so
/// whatever was left of a prior motion has no influence on the delays that
/// follow.
pub proof fn lemma_rearming_discards_history(
    t1: Trapezoidal,
    t2: Trapezoidal,
    max_velocity: Fix,
    num_steps: u32,
)
    requires
        t1.target_accel == t2.target_accel,
        t1.delay_initial == t2.delay_initial,
    ensures
        t1.spec_rearmed(max_velocity, num_steps) == t2.spec_rearmed(max_velocity, num_steps),
        t1.spec_rearmed(max_velocity, num_steps).spec_delays() == t2.spec_rearmed(
            max_velocity,
            num_steps,
        ).spec_delays(),
{
}

/// Bounds of the update-rule quantities for a well-formed engine: `q` stays
/// at or below fixed-point one and no intermediate product leaves 64 bits.
proof fn lemma_q_and_correction_bounds(a: int, d: int, d0: int)
    requires
        1 <= a,
        MIN_DELAY_BITS <= d <= d0,
        a * d0 * d0 <= 0x1_0000_0000_0000_0000_0000_0000,
        d0 <= 0x1_0000_0000_0000,
    ensures
        a * d < 0x1_0000_0000_0000_0000_0000_0000,
        mul_bits(a, d) * d <= 0x1_0000_0000_0000_0000,
        mul_bits(mul_bits(a, d), d) <= 0x1_0000_0000,
        0x1_8000_0000 * mul_bits(mul_bits(a, d), d) < 0x1_0000_0000_0000_0000_0000_0000,
        mul_bits(0x1_8000_0000, mul_bits(mul_bits(a, d), d)) <= 0x1_8000_0000,
        mul_bits(0x1_8000_0000, mul_bits(mul_bits(a, d), d)) * mul_bits(mul_bits(a, d), d)
            < 0x1_0000_0000_0000_0000_0000_0000,
        mul_bits(mul_bits(0x1_8000_0000, mul_bits(mul_bits(a, d), d)), mul_bits(mul_bits(a, d), d))
            <= 0x1_8000_0000,
        d * (0x1_0000_0000 - mul_bits(mul_bits(a, d), d)
            + mul_bits(mul_bits(0x1_8000_0000, mul_bits(mul_bits(a, d), d)),
                mul_bits(mul_bits(a, d), d))) < 0x1_0000_0000_0000_0000_0000_0000,
        d * (0x1_0000_0000 + mul_bits(mul_bits(a, d), d)
            + mul_bits(mul_bits(0x1_8000_0000, mul_bits(mul_bits(a, d), d)),
                mul_bits(mul_bits(a, d), d))) < 0x1_0000_0000_0000_0000_0000_0000,
{
    let add = mul_bits(a, d);
    let q = mul_bits(add, d);

    // a * d * d <= a * d0 * d0 <= 2^96.
    assert(a * d * d <= a * d0 * d0) by (nonlinear_arith)
        requires
            1 <= a,
            0 < d <= d0,
    ;
    assert(a * d >= 0 && (a * d) * MIN_DELAY_BITS <= (a * d) * d) by (nonlinear_arith)
        requires
            1 <= a,
            MIN_DELAY_BITS <= d,
    ;
    assert(a * d < 0x1_0000_0000_0000_0000_0000_0000) by (nonlinear_arith)
        requires
            (a * d) * MIN_DELAY_BITS <= a * d * d,
            a * d * d <= 0x1_0000_0000_0000_0000_0000_0000,
            a * d >= 0,
    ;

    // add * d * 2^32 <= a * d * d, so add * d <= 2^64.
    lemma_div_bits_like_fundamental_mul(a, d);
    assert(add * d * 0x1_0000_0000 <= a * d * d) by (nonlinear_arith)
        requires
            add * 0x1_0000_0000 <= a * d,
            0 <= d,
    ;
    assert(add * d <= 0x1_0000_0000_0000_0000) by (nonlinear_arith)
        requires
            add * d * 0x1_0000_0000 <= 0x1_0000_0000_0000_0000_0000_0000,
            0 <= add * d,
    ;
    assert(0 <= add * d) by (nonlinear_arith)
        requires
            0 <= add,
            0 <= d,
    ;

    // q * 2^32 <= add * d <= 2^64, so q <= 2^32.
    lemma_div_bits_like_fundamental_mul(add, d);
    assert(q <= 0x1_0000_0000) by (nonlinear_arith)
        requires
            q * 0x1_0000_0000 <= 0x1_0000_0000_0000_0000,
            0 <= q,
    ;
    assert(0 <= q) by {
        vstd::arithmetic::div_mod::lemma_div_pos_is_pos(add * d, 0x1_0000_0000);
        vstd::arithmetic::mul::lemma_mul_nonnegative(add, d);
    }

    // The correction term 1.5 * q * q stays at or below 1.5 in fixed-point.
    let of = mul_bits(0x1_8000_0000, q);
    lemma_mul_bits_le(0x1_8000_0000, 0x1_8000_0000, q, 0x1_0000_0000);
    assert(mul_bits(0x1_8000_0000, 0x1_0000_0000) == 0x1_8000_0000) by {
        vstd::arithmetic::div_mod::lemma_div_multiples_vanish(0x1_8000_0000, 0x1_0000_0000);
    }
    lemma_mul_bits_le(of, 0x1_8000_0000, q, 0x1_0000_0000);

    // No product with the delay leaves 96 bits.
    let c = mul_bits(of, q);
    assert(d * (0x1_0000_0000 - q + c) <= d * 0x3_8000_0000 && d * (0x1_0000_0000 + q + c) <= d
        * 0x3_8000_0000 && d * 0x3_8000_0000 < 0x1_0000_0000_0000_0000_0000_0000)
        by (nonlinear_arith)
        requires
            0 <= q <= 0x1_0000_0000,
            0 <= c <= 0x1_8000_0000,
            0 < d <= 0x1_0000_0000_0000,
    ;
}

/// From the definition of `mul_bits` as a rounded-down division:
/// `mul_bits(a, b) * 2^32 <= a * b`.
proof fn lemma_div_bits_like_fundamental_mul(a: int, b: int)
    requires
        0 <= a,
        0 <= b,
    ensures
        mul_bits(a, b) * 0x1_0000_0000 <= a * b,
        0 <= mul_bits(a, b),
{
    vstd::arithmetic::div_mod::lemma_fundamental_div_mod(a * b, 0x1_0000_0000);
    vstd::arithmetic::div_mod::lemma_mod_bound(a * b, 0x1_0000_0000);
    vstd::arithmetic::mul::lemma_mul_nonnegative(a, b);
    vstd::arithmetic::div_mod::lemma_div_pos_is_pos(a * b, 0x1_0000_0000);
}

impl RampMode {
    /// Derive the operating mode for the next step from the engine's fields.
    ///
    /// The motion must begin decelerating ("ramp down") as soon as the steps
    /// left do not exceed the steps needed to stop from the current
    /// velocity; otherwise the velocity is held once the minimum delay has
    /// been reached, and raised until then.
    fn compute(profile: &Trapezoidal) -> (m: RampMode)
        requires
            profile.wf(),
        ensures
            m == profile.spec_mode(),
    {
        // Without a minimum delay there is no velocity to move at.
        let delay_min = match profile.delay_min {
            Some(delay) => delay,
            None => {
                return RampMode::Idle;
            },
        };

        if profile.steps_left == 0 {
            return RampMode::Idle;
        }

        let ghost a = profile.target_accel.bits as int;
        let ghost d = profile.delay_prev.bits as int;
        let ghost dm = min_int(delay_min.bits as int, profile.delay_initial.bits as int);

        let two = fix_add(Fix::one(), Fix::one());

        // Steps needed to come to a stop: ceil(velocity^2 / (2 * accel)).
        proof {
            lemma_recip_bits_bounds(MIN_DELAY_BITS as int, d);
            assert(recip_bits(d) * recip_bits(d) < 0x1_0000_0000_0000_0000_0000_0000)
                by (nonlinear_arith)
                requires
                    0 <= recip_bits(d) < 0x1_0000_0000_0000,
            ;
        }
        let velocity = fix_recip(profile.delay_prev);
        let velocity_squared = fix_mul(velocity, velocity);
        proof {
            lemma_twice_accel_exact(a);
            // The bound of `sts_fits` holds at the smallest delay of the
            // motion, and the current delay is no smaller.
            lemma_recip_bits_bounds(dm, d);
            lemma_mul_bits_le(recip_bits(d), recip_bits(dm), recip_bits(d), recip_bits(dm));
            lemma_div_bits_le_num(
                mul_bits(recip_bits(d), recip_bits(d)),
                mul_bits(recip_bits(dm), recip_bits(dm)),
                2 * a,
            );
            lemma_div_bits_fundamental(mul_bits(recip_bits(d), recip_bits(d)), 2 * a);
        }
        let twice_accel = fix_mul(two, profile.target_accel);
        let steps_to_stop_fix = fix_div(velocity_squared, twice_accel);
        proof {
            vstd::arithmetic::div_mod::lemma_div_multiples_vanish(
                (steps_to_stop_fix.bits + 0xFFFF_FFFF) as int / 0x1_0000_0000,
                0x1_0000_0000,
            );
        }
        let steps_to_stop = fix_int_u32(fix_ceil(steps_to_stop_fix));

        let target_step_is_close = profile.steps_left <= steps_to_stop;
        let reached_max_velocity = profile.delay_prev.bits <= delay_min.bits;

        if target_step_is_close {
            RampMode::RampDown
        } else if reached_max_velocity {
            RampMode::Plateau
        } else {
            RampMode::RampUp { delay_min }
        }
    }
}

/// At the initial delay — the largest delay, hence the smallest velocity —
/// the steps-to-stop computation always fits: the velocity there is what one
/// step of the target acceleration reaches, so about one step suffices to
/// stop.
proof fn lemma_sts_fits_at_initial(a: int, d0: int)
    requires
        1 <= a,
        MIN_DELAY_BITS <= d0,
        0x40_0000_0000_0000_0000_0000 <= a * d0 * d0,
    ensures
        sts_fits(a, d0),
{
    let v = recip_bits(d0);
    let x = mul_bits(v, v);
    let y = div_bits(x, 2 * a);
    lemma_div_bits_fundamental(FIX_ONE_BITS as int, d0);
    assert(v * d0 <= 0x1_0000_0000_0000_0000);
    assert(x * 0x1_0000_0000 <= v * v && 0 <= x) by {
        lemma_div_bits_like_fundamental_mul(v, v);
    }
    lemma_div_bits_fundamental(x, 2 * a);
    assert(y * (2 * a) <= x * 0x1_0000_0000);
    assert(y <= 0xFFFF_FFFF_0000_0000) by (nonlinear_arith)
        requires
            y * (2 * a) <= x * 0x1_0000_0000,
            x * 0x1_0000_0000 <= v * v,
            v * d0 <= 0x1_0000_0000_0000_0000,
            a * d0 * d0 >= 0x40_0000_0000_0000_0000_0000,
            0 <= d0,
            0 <= y,
            0 <= v,
            1 <= a,
    ;
}

/// Doubling an acceleration in fixed-point is exact: the bit pattern of
/// `2 * a` is twice the bit pattern of `a`.
proof fn lemma_twice_accel_exact(a: int)
    requires
        0 <= a,
    ensures
        mul_bits(0x2_0000_0000, a) == 2 * a,
{
    assert(0x2_0000_0000 * a == (2 * a) * 0x1_0000_0000) by (nonlinear_arith);
    vstd::arithmetic::div_mod::lemma_div_multiples_vanish(2 * a, 0x1_0000_0000);
}

/// Bounds of the initial delay `d0 = div_bits(2^32, s)`, where `s` is the
/// fixed-point square root of `2 * a`: the delay lies between `2^16 + 1`
/// and `2^48`, and `a * d0^2` stays within `2^96`.
proof fn lemma_initial_delay_bounds(a: int, s: int)
    requires
        1 <= a <= MAX_TARGET_ACCEL_BITS,
        s % 0x1_0000 == 0,
        is_isqrt(2 * a, s / 0x1_0000),
    ensures
        0x1_0000 <= s <= 0xFFFF_0000_0000,
        MIN_DELAY_BITS <= div_bits(FIX_ONE_BITS as int, s) <= 0x1_0000_0000_0000,
        a * div_bits(FIX_ONE_BITS as int, s) * div_bits(FIX_ONE_BITS as int, s)
            <= 0x1_0000_0000_0000_0000_0000_0000,
        0x40_0000_0000_0000_0000_0000 <= a * div_bits(FIX_ONE_BITS as int, s) * div_bits(
            FIX_ONE_BITS as int,
            s,
        ),
{
    let s0 = s / 0x1_0000;
    let d0 = div_bits(FIX_ONE_BITS as int, s);
    assert(s == s0 * 0x1_0000) by {
        vstd::arithmetic::div_mod::lemma_fundamental_div_mod(s, 0x1_0000);
    }

    // Lower bound on s0: a >= 1 makes 2a >= 2, so the root is at least 1.
    assert(s0 >= 1) by (nonlinear_arith)
        requires
            is_isqrt(2 * a, s0),
            a >= 1,
    ;
    // Upper bound on s0: 2a <= 2^64 - 2^49 < (2^32 - 2^16 + 1)^2.
    assert(s0 <= 0xFFFF_0000) by (nonlinear_arith)
        requires
            is_isqrt(2 * a, s0),
            a <= MAX_TARGET_ACCEL_BITS,
    ;
    assert(0x1_0000 <= s <= 0xFFFF_0000_0000);

    // d0 = floor(2^64 / s); with s between 2^16 and 2^48 - 2^32 the
    // quotient lies between 2^16 + 1 and 2^48.
    lemma_div_bits_anti_den(FIX_ONE_BITS as int, 0x1_0000, s);
    lemma_div_bits_anti_den(FIX_ONE_BITS as int, s, 0xFFFF_0000_0000);
    assert(div_bits(FIX_ONE_BITS as int, 0x1_0000) == 0x1_0000_0000_0000);
    assert(div_bits(FIX_ONE_BITS as int, 0xFFFF_0000_0000) == 0x1_0001);

    // Product bound: a * d0^2 <= 2^96.
    lemma_div_bits_fundamental(FIX_ONE_BITS as int, s);
    assert(d0 * s <= 0x1_0000_0000_0000_0000);

    // Product lower bound: a * d0^2 >= 2^94. The quotient is off by less
    // than one from 2^64 / s, and 2a is at least s0^2, so the product comes
    // out just under 2^95.
    assert(d0 * s > 0x1_0000_0000_0000_0000 - s) by {
        vstd::arithmetic::div_mod::lemma_fundamental_div_mod(0x1_0000_0000_0000_0000, s);
        vstd::arithmetic::div_mod::lemma_mod_bound(0x1_0000_0000_0000_0000, s);
        vstd::arithmetic::mul::lemma_mul_is_commutative(s, d0);
    }
    assert(d0 * s0 > 0xFFFF_0000_0000 && d0 >= 0) by (nonlinear_arith)
        requires
            d0 * (s0 * 0x1_0000) > 0x1_0000_0000_0000_0000 - s0 * 0x1_0000,
            1 <= s0 <= 0xFFFF_0000,
    ;
    assert(a * d0 * d0 >= 0x40_0000_0000_0000_0000_0000) by (nonlinear_arith)
        requires
            d0 * s0 > 0xFFFF_0000_0000,
            s0 * s0 <= 2 * a,
            0 <= d0,
            1 <= s0,
    ;
    assert(2 * a <= s0 * s0 + 2 * s0) by (nonlinear_arith)
        requires
            is_isqrt(2 * a, s0),
    ;
    if s0 == 1 {
        // Then 2a <= 3, so a = 1, s = 2^16 and d0 = 2^48 exactly.
        assert(a == 1) by (nonlinear_arith)
            requires
                is_isqrt(2 * a, s0),
                s0 == 1,
                a >= 1,
        ;
        assert(d0 == 0x1_0000_0000_0000);
        assert(a * d0 * d0 <= 0x1_0000_0000_0000_0000_0000_0000) by (nonlinear_arith)
            requires
                a == 1,
                d0 == 0x1_0000_0000_0000,
        ;
    } else {
        assert(a * d0 * d0 <= 0x1_0000_0000_0000_0000_0000_0000) by (nonlinear_arith)
            requires
                2 <= s0,
                0 <= d0,
                0 <= a,
                s == s0 * 0x1_0000,
                d0 * s <= 0x1_0000_0000_0000_0000,
                2 * a <= s0 * s0 + 2 * s0,
        ;
    }
}

} // verus!
