//! Inclusive `u64` value ranges and the exchange-rate arithmetic behind them.
//!
//! Converting between an LST amount and its SOL value multiplies by an
//! exchange rate given as a ratio of two 64-bit totals. Truncation in the
//! backend makes the true value ambiguous at the smallest unit, so a
//! conversion returns the inclusive range from the floor to the ceiling of
//! the exact rational value; callers pick the endpoint that is conservative
//! for their direction.

use vstd::prelude::*;

use crate::errors::LstSolValCalcError;

verus! {

/// An inclusive range of 64-bit values.
#[derive(Clone, Copy, Debug, PartialEq, Eq, Structural)]
pub struct U64ValueRange {
    pub min: u64,
    pub max: u64,
}

impl U64ValueRange {
    /// A well-formed range has its endpoints ordered.
    pub open spec fn wf(&self) -> bool {
        self.min <= self.max
    }

    pub fn single(v: u64) -> (r: U64ValueRange)
        ensures
            r == (U64ValueRange { min: v, max: v }),
    {
        U64ValueRange { min: v, max: v }
    }
}

/// `floor(amount * num / den)`.
pub open spec fn ratio_floor(amount: u64, num: u64, den: u64) -> int {
    (amount * num) / (den as int)
}

/// `ceil(amount * num / den)`.
pub open spec fn ratio_ceil(amount: u64, num: u64, den: u64) -> int {
    (amount * num + den - 1) / (den as int)
}

/// What applying the ratio `num / den` to `amount` yields: the inclusive
/// floor-to-ceiling range, or a math error when the ratio is undefined
/// (`den == 0`) or the ceiling does not fit in 64 bits.
pub open spec fn ratio_range_result(amount: u64, num: u64, den: u64) -> Result<
    U64ValueRange,
    LstSolValCalcError,
> {
    if den == 0 {
        Err(LstSolValCalcError::MathError)
    } else if ratio_ceil(amount, num, den) > u64::MAX {
        Err(LstSolValCalcError::MathError)
    } else {
        Ok(
            U64ValueRange {
                min: ratio_floor(amount, num, den) as u64,
                max: ratio_ceil(amount, num, den) as u64,
            },
        )
    }
}

/// Applies the ratio `num / den` to `amount`, returning the inclusive range
/// bracketing the exact rational value.
pub fn apply_ratio_range(amount: u64, num: u64, den: u64) -> (r: Result<
    U64ValueRange,
    LstSolValCalcError,
>)
    ensures
        r == ratio_range_result(amount, num, den),
        r matches Ok(v) ==> v.min <= v.max,
{
    if den == 0 {
        return Err(LstSolValCalcError::MathError);
    }
    proof {
        vstd::arithmetic::mul::lemma_mul_upper_bound(
            amount as int, u64::MAX as int, num as int, u64::MAX as int,
        );
    }
    let p: u128 = (amount as u128) * (num as u128);
    let fl: u128 = p / (den as u128);
    let ce: u128 = (p + (den as u128) - 1) / (den as u128);
    proof {
        vstd::arithmetic::div_mod::lemma_div_is_ordered(
            p as int, p + den - 1, den as int,
        );
    }
    if ce > u64::MAX as u128 {
        return Err(LstSolValCalcError::MathError);
    }
    Ok(U64ValueRange { min: fl as u64, max: ce as u64 })
}

} // verus!
