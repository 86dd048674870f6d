//! Turns an amount of collateral and an oracle price into a value in the
//! borrowed asset's units.
//!
//! A price is a mantissa and a power-of-ten exponent. Collateral and borrowed
//! asset both count in millionths, so the value of `amount` is just
//! `amount * mantissa * 10^exponent`, cut off below one unit. All of it is
//! computed in 128 bits.

use crate::errors::VaultError;
use vstd::prelude::*;

verus! {

/// Ten to the power `e`.
pub open spec fn pow10(e: nat) -> nat
    decreases e,
{
    if e == 0 {
        1
    } else {
        10 * pow10((e - 1) as nat)
    }
}

/// How far `exponent` is from zero.
pub open spec fn magnitude(exponent: i32) -> nat {
    if exponent < 0 {
        (-exponent) as nat
    } else {
        exponent as nat
    }
}

/// The value of `amount` at the price `mantissa * 10^exponent`, as a
/// mathematical integer: a negative exponent divides and drops the
/// remainder, any other multiplies.
pub open spec fn scaled_value(amount: u64, mantissa: i64, exponent: i32) -> int {
    if exponent < 0 {
        (amount * mantissa) / (pow10(magnitude(exponent)) as int)
    } else {
        amount * mantissa * pow10(magnitude(exponent))
    }
}

/// What the conversion answers. A price that is not positive is no price. The
/// power of ten and the value must both fit in 128 bits; if either does not,
/// the conversion overflows, even where the quotient itself would be small.
pub open spec fn usd_value(amount: u64, mantissa: i64, exponent: i32) -> Result<u128, VaultError> {
    if mantissa <= 0 {
        Err(VaultError::InvalidPriceFeed)
    } else if pow10(magnitude(exponent)) > u128::MAX || scaled_value(amount, mantissa, exponent)
        > u128::MAX {
        Err(VaultError::MathOverflow)
    } else {
        Ok(scaled_value(amount, mantissa, exponent) as u128)
    }
}

/// A larger exponent never gives a smaller power of ten.
pub proof fn lemma_pow10_monotonic(a: nat, b: nat)
    requires
        a <= b,
    ensures
        1 <= pow10(a) <= pow10(b),
    decreases b,
{
    if a == 0 {
        if b > 0 {
            lemma_pow10_monotonic(0, (b - 1) as nat);
        }
    } else {
        lemma_pow10_monotonic((a - 1) as nat, (b - 1) as nat);
    }
}

/// At a positive price no amount has a negative value.
pub proof fn lemma_scaled_value_not_negative(amount: u64, mantissa: i64, exponent: i32)
    requires
        mantissa > 0,
    ensures
        scaled_value(amount, mantissa, exponent) >= 0,
{
    let raw = amount * mantissa;
    let scale = pow10(magnitude(exponent)) as int;
    lemma_pow10_monotonic(0, magnitude(exponent));
    assert(raw >= 0) by (nonlinear_arith)
        requires
            raw == amount * mantissa,
            amount >= 0,
            mantissa > 0,
    ;
    assert(raw / scale >= 0 && raw * scale >= 0) by (nonlinear_arith)
        requires
            raw >= 0,
            scale >= 1,
    ;
}

/// Ten to the power `e`, or `None` where that does not fit in 128 bits.
pub fn checked_pow10(e: u32) -> (power: Option<u128>)
    ensures
        match power {
            Some(p) => p == pow10(e as nat),
            None => pow10(e as nat) > u128::MAX,
        },
{
    let mut power: u128 = 1;
    let mut i: u32 = 0;
    while i < e
        invariant
            i <= e,
            power == pow10(i as nat),
        decreases e - i,
    {
        match power.checked_mul(10) {
            Some(next) => {
                power = next;
            },
            None => {
                proof {
                    lemma_pow10_monotonic((i + 1) as nat, e as nat);
                }
                return None;
            },
        }
        i += 1;
    }
    Some(power)
}

/// The value of `amount` units of collateral at the oracle price
/// `mantissa * 10^exponent`, in units of the borrowed asset.
pub fn collateral_value(amount: u64, mantissa: i64, exponent: i32) -> (value: Result<
    u128,
    VaultError,
>)
    ensures
        value == usd_value(amount, mantissa, exponent),
        value matches Ok(v) ==> v == scaled_value(amount, mantissa, exponent),
{
    if mantissa <= 0 {
        return Err(VaultError::InvalidPriceFeed);
    }
    assert(amount * mantissa <= u128::MAX) by (nonlinear_arith)
        requires
            0 <= amount <= u64::MAX,
            0 < mantissa <= i64::MAX,
    ;
    let raw: u128 = (amount as u128) * (mantissa as u128);
    let shift: u32 = if exponent < 0 {
        (-(exponent as i64)) as u32
    } else {
        exponent as u32
    };
    let scale: u128 = match checked_pow10(shift) {
        Some(s) => s,
        None => {
            return Err(VaultError::MathOverflow);
        },
    };
    proof {
        lemma_pow10_monotonic(0, shift as nat);
    }
    if exponent < 0 {
        Ok(raw / scale)
    } else {
        match raw.checked_mul(scale) {
            Some(v) => Ok(v),
            None => Err(VaultError::MathOverflow),
        }
    }
}

} // verus!
