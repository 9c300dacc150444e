//! The numeric type used by the motion profiles.
//!
//! Every quantity the profiles work with (accelerations, velocities, delays)
//! is an unsigned fixed-point number with 32 integer bits and 32 fractional
//! bits, held in a [`Fix`]. A `Fix` with bit pattern `b` stands for the real
//! number `b / 2^32`.
//!
//! The arithmetic itself is done by the `fixed` crate (with `fixed-sqrt` for
//! square roots and `az` for the integer cast); each operation the profiles
//! need is wrapped in a function whose contract states, over the raw bit
//! patterns, exactly what that crate computes.

use vstd::prelude::*;

verus! {

/// Bit pattern of the fixed-point number one (2^32).
pub const FIX_ONE_BITS: u64 = 0x1_0000_0000;

/// Largest accepted bit pattern for a maximum velocity (`2^48 - 2^32`).
///
/// This caps velocities at just under `2^16` steps per unit of time, so that
/// every delay a profile works with stays above [`MIN_DELAY_BITS`] and
/// squaring the corresponding velocity stays inside 64 bits.
pub const MAX_VELOCITY_BITS: u64 = 0xFFFF_0000_0000;

/// Smallest delay bit pattern a profile ever produces (`2^16 + 1`).
pub const MIN_DELAY_BITS: u64 = 0x1_0001;

/// A fixed-point number with 32 integer and 32 fractional bits.
///
/// The field holds the raw bit pattern; the value represented is
/// `bits / 2^32`. All contracts in this crate speak of these bits.
#[derive(Clone, Copy, PartialEq, Eq, Structural, Debug)]
pub struct Fix {
    /// Raw bit pattern: the represented value times 2^32.
    pub bits: u64,
}

/// The bit pattern of the fixed-point product of two bit patterns:
/// the real product scaled by 2^32, rounded down.
pub open spec fn mul_bits(a: int, b: int) -> int {
    (a * b) / 0x1_0000_0000
}

/// The bit pattern of the fixed-point quotient of two bit patterns:
/// the real quotient scaled by 2^32, rounded down.
pub open spec fn div_bits(a: int, b: int) -> int {
    (a * 0x1_0000_0000) / b
}

/// The bit pattern of the fixed-point reciprocal: `2^64 / a`, rounded down.
pub open spec fn recip_bits(a: int) -> int {
    div_bits(FIX_ONE_BITS as int, a)
}

/// The bit pattern of a fixed-point value rounded up to a whole integer.
pub open spec fn ceil_bits(a: int) -> int {
    ((a + 0xFFFF_FFFF) / 0x1_0000_0000) * 0x1_0000_0000
}

/// `s` is the integer square root of `n`, rounded down.
pub open spec fn is_isqrt(n: int, s: int) -> bool {
    &&& 0 <= s
    &&& s * s <= n
    &&& n < (s + 1) * (s + 1)
}

impl Fix {
    /// The fixed-point number zero.
    pub fn zero() -> (r: Fix)
        ensures
            r.bits == 0,
    {
        Fix { bits: 0 }
    }

    /// The fixed-point number one.
    pub fn one() -> (r: Fix)
        ensures
            r.bits == FIX_ONE_BITS,
    {
        Fix { bits: FIX_ONE_BITS }
    }

    /// The fixed-point number with integer value `n`.
    pub fn from_int(n: u32) -> (r: Fix)
        ensures
            r.bits == n * 0x1_0000_0000,
    {
        Fix { bits: (n as u64) * FIX_ONE_BITS }
    }

    /// True exactly when the value is zero.
    pub fn is_zero(self) -> (r: bool)
        ensures
            r == (self.bits == 0),
    {
        self.bits == 0
    }
}

/// The product of two bit patterns grows with either factor.
pub proof fn lemma_mul_bits_le(a1: int, a2: int, b1: int, b2: int)
    requires
        0 <= a1 <= a2,
        0 <= b1 <= b2,
    ensures
        mul_bits(a1, b1) <= mul_bits(a2, b2),
{
    assert(a1 * b1 <= a2 * b2) by (nonlinear_arith)
        requires
            0 <= a1 <= a2,
            0 <= b1 <= b2,
    ;
    vstd::arithmetic::div_mod::lemma_div_is_ordered(a1 * b1, a2 * b2, 0x1_0000_0000);
}

/// The quotient of bit patterns grows with the dividend.
pub proof fn lemma_div_bits_le_num(a1: int, a2: int, b: int)
    requires
        a1 <= a2,
        1 <= b,
    ensures
        div_bits(a1, b) <= div_bits(a2, b),
{
    vstd::arithmetic::div_mod::lemma_div_is_ordered(a1 * 0x1_0000_0000, a2 * 0x1_0000_0000, b);
}

/// The quotient of bit patterns shrinks as the divisor grows.
pub proof fn lemma_div_bits_anti_den(a: int, b1: int, b2: int)
    requires
        0 <= a,
        1 <= b1 <= b2,
    ensures
        div_bits(a, b2) <= div_bits(a, b1),
{
    vstd::arithmetic::div_mod::lemma_div_is_ordered_by_denominator(a * 0x1_0000_0000, b1, b2);
}

/// The quotient times the divisor does not exceed the shifted dividend.
pub proof fn lemma_div_bits_fundamental(a: int, b: int)
    requires
        0 <= a,
        1 <= b,
    ensures
        div_bits(a, b) * b <= a * 0x1_0000_0000,
        0 <= div_bits(a, b),
{
    vstd::arithmetic::div_mod::lemma_fundamental_div_mod(a * 0x1_0000_0000, b);
    vstd::arithmetic::div_mod::lemma_mod_bound(a * 0x1_0000_0000, b);
    vstd::arithmetic::div_mod::lemma_div_pos_is_pos(a * 0x1_0000_0000, b);
    vstd::arithmetic::mul::lemma_mul_is_commutative(b, div_bits(a, b));
}

/// Multiplying by a factor of at most one (in fixed-point) cannot grow a
/// value, and by a factor of at least one cannot shrink it.
pub proof fn lemma_mul_bits_by_factor(d: int, f: int)
    requires
        0 <= d,
        0 <= f,
    ensures
        f <= 0x1_0000_0000 ==> mul_bits(d, f) <= d,
        f >= 0x1_0000_0000 ==> mul_bits(d, f) >= d,
{
    assert(mul_bits(d, 0x1_0000_0000) == d) by {
        vstd::arithmetic::div_mod::lemma_div_multiples_vanish(d, 0x1_0000_0000);
    }
    if f <= 0x1_0000_0000 {
        lemma_mul_bits_le(d, d, f, 0x1_0000_0000);
    }
    if f >= 0x1_0000_0000 {
        lemma_mul_bits_le(d, d, 0x1_0000_0000, f);
    }
}

/// The reciprocal of a bit pattern of at least `2^16 + 1` stays below `2^48`,
/// and reciprocals shrink as the argument grows.
pub proof fn lemma_recip_bits_bounds(d1: int, d2: int)
    requires
        0x1_0001 <= d1 <= d2,
    ensures
        recip_bits(d2) <= recip_bits(d1),
        recip_bits(d1) < 0x1_0000_0000_0000,
        0 <= recip_bits(d2),
{
    lemma_div_bits_anti_den(FIX_ONE_BITS as int, d1, d2);
    lemma_div_bits_fundamental(FIX_ONE_BITS as int, d2);
    lemma_div_bits_fundamental(FIX_ONE_BITS as int, d1);
    assert(recip_bits(d1) * 0x1_0001 <= recip_bits(d1) * d1) by (nonlinear_arith)
        requires
            0x1_0001 <= d1,
            0 <= recip_bits(d1),
    ;
    assert(recip_bits(d1) * 0x1_0001 <= 0x1_0000_0000_0000_0000);
    assert(recip_bits(d1) < 0x1_0000_0000_0000) by (nonlinear_arith)
        requires
            recip_bits(d1) * 0x1_0001 <= 0x1_0000_0000_0000_0000,
            0 <= recip_bits(d1),
    ;
}

/// Relies on `fixed::FixedU64::add` (via `core::ops::Add`): the sum of the
/// bit patterns, which must not overflow.
#[verifier::external_body]
pub(crate) fn fix_add(a: Fix, b: Fix) -> (r: Fix)
    requires
        a.bits + b.bits <= u64::MAX,
    ensures
        r.bits == a.bits + b.bits,
{
    let x = fixed::FixedU64::<typenum::U32>::from_bits(a.bits);
    let y = fixed::FixedU64::<typenum::U32>::from_bits(b.bits);
    Fix { bits: (x + y).to_bits() }
}

/// Relies on `fixed::FixedU64::sub` (via `core::ops::Sub`): the difference
/// of the bit patterns, which must not underflow.
#[verifier::external_body]
pub(crate) fn fix_sub(a: Fix, b: Fix) -> (r: Fix)
    requires
        b.bits <= a.bits,
    ensures
        r.bits == a.bits - b.bits,
{
    let x = fixed::FixedU64::<typenum::U32>::from_bits(a.bits);
    let y = fixed::FixedU64::<typenum::U32>::from_bits(b.bits);
    Fix { bits: (x - y).to_bits() }
}

/// Relies on `fixed::FixedU64::mul` (via `core::ops::Mul`): the product of
/// the bit patterns shifted down by 32 bits, rounded down; the shifted
/// product must fit in 64 bits.
#[verifier::external_body]
pub(crate) fn fix_mul(a: Fix, b: Fix) -> (r: Fix)
    requires
        a.bits * b.bits < 0x1_0000_0000_0000_0000_0000_0000,
    ensures
        r.bits == mul_bits(a.bits as int, b.bits as int),
{
    let x = fixed::FixedU64::<typenum::U32>::from_bits(a.bits);
    let y = fixed::FixedU64::<typenum::U32>::from_bits(b.bits);
    Fix { bits: (x * y).to_bits() }
}

/// Relies on `fixed::FixedU64::div` (via `core::ops::Div`): the dividend's
/// bits shifted up by 32 bits and divided by the divisor's bits, rounded
/// down; the divisor must not be zero and the quotient must fit in 64 bits.
#[verifier::external_body]
pub(crate) fn fix_div(a: Fix, b: Fix) -> (r: Fix)
    requires
        b.bits >= 1,
        div_bits(a.bits as int, b.bits as int) <= u64::MAX,
    ensures
        r.bits == div_bits(a.bits as int, b.bits as int),
{
    let x = fixed::FixedU64::<typenum::U32>::from_bits(a.bits);
    let y = fixed::FixedU64::<typenum::U32>::from_bits(b.bits);
    Fix { bits: (x / y).to_bits() }
}

/// Relies on `num_traits::Inv` for `fixed::FixedU64`, which computes
/// `fixed::FixedU64::recip`, the fixed-point division of one by the value:
/// `2^64` divided by the bits, rounded down. Bits of zero would panic and
/// bits of one would overflow, so both are excluded.
#[verifier::external_body]
pub(crate) fn fix_recip(a: Fix) -> (r: Fix)
    requires
        a.bits >= 2,
    ensures
        r.bits == recip_bits(a.bits as int),
{
    let x = fixed::FixedU64::<typenum::U32>::from_bits(a.bits);
    Fix { bits: num_traits::Inv::inv(x).to_bits() }
}

/// Relies on `fixed_sqrt::FastSqrt::fast_sqrt` for `fixed::FixedU64` with an
/// even number of fractional bits: the integer square root (rounded down) of
/// the bit pattern, shifted up by 16 bits.
#[verifier::external_body]
pub(crate) fn fix_sqrt(a: Fix) -> (r: Fix)
    ensures
        r.bits % 0x1_0000 == 0,
        is_isqrt(a.bits as int, r.bits as int / 0x1_0000),
{
    let x = fixed::FixedU64::<typenum::U32>::from_bits(a.bits);
    Fix { bits: fixed_sqrt::FastSqrt::fast_sqrt(x).to_bits() }
}

/// Relies on `fixed::FixedU64::ceil`: rounds up to the next whole integer;
/// the input must be small enough that rounding up cannot overflow.
#[verifier::external_body]
pub(crate) fn fix_ceil(a: Fix) -> (r: Fix)
    requires
        a.bits <= 0xFFFF_FFFF_0000_0000,
    ensures
        r.bits == ceil_bits(a.bits as int),
{
    let x = fixed::FixedU64::<typenum::U32>::from_bits(a.bits);
    Fix { bits: x.ceil().to_bits() }
}

/// Relies on `az::Az::az` for `fixed::FixedU64` into `u32`: the integer part
/// of the value, rounded towards zero, which always fits in 32 bits here
/// since the type has 32 integer bits.
#[verifier::external_body]
pub(crate) fn fix_int_u32(a: Fix) -> (r: u32)
    ensures
        r == a.bits / 0x1_0000_0000,
{
    let x = fixed::FixedU64::<typenum::U32>::from_bits(a.bits);
    az::Az::az::<u32>(x)
}

} // verus!
