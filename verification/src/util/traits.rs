//! Numeric capability traits.
//!
//! The motion profiles need two operations beyond ordering and the four
//! arithmetic operators: a square root and rounding up to a whole number.
//! These traits state that capability, together with a specification-level
//! account of what each operation returns and when it may be called, so
//! that code written against them knows exactly what it gets.
//!
//! [`Fix`] implements both through the `fixed-sqrt` and `fixed` crates.

use vstd::prelude::*;

use crate::num::{ceil_bits, fix_ceil, fix_sqrt, is_isqrt, Fix};

verus! {

/// Defines an interface to the square root operation.
pub trait Sqrt: Sized {
    /// What the square root operation promises of its result.
    spec fn sqrt_post(self, r: Self) -> bool;

    /// Return the square root of `self`, rounded down.
    fn sqrt(self) -> (r: Self)
        ensures
            self.sqrt_post(r),
    ;
}

/// Defines an interface to the `ceil` operator for rounding up.
pub trait Ceil: Sized {
    /// The inputs on which rounding up stays representable.
    spec fn ceil_req(self) -> bool;

    /// What the rounding operation promises of its result.
    spec fn ceil_post(self, r: Self) -> bool;

    /// Round up to the next largest integer.
    fn ceil(self) -> (r: Self)
        requires
            self.ceil_req(),
        ensures
            self.ceil_post(r),
    ;
}

impl Sqrt for Fix {
    /// The result's bits are the integer square root of the argument's
    /// bits, shifted into place: a square root rounded down to a multiple
    /// of `2^-16`.
    open spec fn sqrt_post(self, r: Fix) -> bool {
        &&& r.bits % 0x1_0000 == 0
        &&& is_isqrt(self.bits as int, r.bits as int / 0x1_0000)
    }

    fn sqrt(self) -> (r: Fix) {
        fix_sqrt(self)
    }
}

impl Ceil for Fix {
    /// Rounding up must not overflow the 32 integer bits.
    open spec fn ceil_req(self) -> bool {
        self.bits <= 0xFFFF_FFFF_0000_0000
    }

    /// The result is the argument rounded up to a whole number.
    open spec fn ceil_post(self, r: Fix) -> bool {
        r.bits == ceil_bits(self.bits as int)
    }

    fn ceil(self) -> (r: Fix) {
        fix_ceil(self)
    }
}

} // verus!
