//! Non-negative fixed-point numbers with eighteen fractional decimal digits.
//!
//! A value is stored as a count of atomic units of `10^-18`, so arithmetic on
//! these numbers is exact integer arithmetic on the atomic counts.

use vstd::prelude::*;

verus! {

/// Number of atomic units in one whole unit: a value carries eighteen
/// fractional decimal digits.
pub const DECIMAL_FRACTIONAL: u128 = 1_000_000_000_000_000_000;

/// A non-negative fixed-point number, stored as a count of `10^-18` atomic
/// units. The number represented is `atomics / 10^18`.
#[derive(Clone, Copy, PartialEq, Eq, Structural, Debug)]
pub struct Decimal {
    pub atomics: u128,
}

impl Decimal {
    /// The value zero.
    pub fn zero() -> (r: Decimal)
        ensures
            r.atomics == 0,
    {
        Decimal { atomics: 0 }
    }

    /// The value with exactly the given count of atomic units.
    pub fn from_atomics(atomics: u128) -> (r: Decimal)
        ensures
            r.atomics == atomics,
    {
        Decimal { atomics }
    }

    /// The whole number `n` as a fixed-point value.
    pub fn from_whole(n: u64) -> (r: Decimal)
        ensures
            r.atomics == n * DECIMAL_FRACTIONAL,
    {
        proof {
            assert((n as u128) * DECIMAL_FRACTIONAL <= u128::MAX) by (nonlinear_arith)
                requires
                    n <= u64::MAX,
            ;
        }
        Decimal { atomics: (n as u128) * DECIMAL_FRACTIONAL }
    }
}

} // verus!
