//! Lending and liquidation hold together: the vault never lends a position
//! into liquidation.

use crate::fixed_point::{lemma_pow10_monotonic, magnitude, pow10, scaled_value};
use crate::instructions::deposit_skr_and_borrow::{
    borrow_amount, loan_after, ltv_tier, rejection,
};
use crate::instructions::liquidate_loan::unhealthy;
use crate::oracle::PriceReading;
use crate::state::{UserLoan, VaultState};
use vstd::prelude::*;

verus! {

/// Dividing a sum, remainder dropped, gives at least the sum of the parts
/// divided.
proof fn lemma_division_of_sum(a: int, b: int, d: int)
    by (nonlinear_arith)
    requires
        0 <= a,
        0 <= b,
        0 < d,
    ensures
        (a + b) / d >= a / d + b / d,
{
}

/// At one price, two amounts together are worth at least what they are worth
/// apart.
pub proof fn lemma_value_of_sum(first: u64, second: u64, mantissa: i64, exponent: i32)
    requires
        mantissa > 0,
        first + second <= u64::MAX,
    ensures
        scaled_value((first + second) as u64, mantissa, exponent) >= scaled_value(
            first,
            mantissa,
            exponent,
        ) + scaled_value(second, mantissa, exponent),
{
    let scale = pow10(magnitude(exponent)) as int;
    lemma_pow10_monotonic(0, magnitude(exponent));
    let a = first * mantissa;
    let b = second * mantissa;
    let both = ((first + second) as u64) * mantissa;
    assert(both == a + b && a >= 0 && b >= 0) by (nonlinear_arith)
        requires
            a == first * mantissa,
            b == second * mantissa,
            both == (first + second) * mantissa,
            mantissa > 0,
    ;
    if exponent < 0 {
        lemma_division_of_sum(a, b, scale);
    } else {
        assert((a + b) * scale == a * scale + b * scale) by (nonlinear_arith);
    }
}

/// A deposit leaves its position short of liquidation at the price it was
/// made at.
///
/// This holds of a well-formed vault, whose loan-to-value tiers lie under its
/// liquidation threshold; of a position whose debt was within the threshold
/// before, as that of an empty position is; and of a deposit that is worth
/// something at that price.
pub proof fn lemma_deposit_leaves_position_healthy(
    loan: UserLoan,
    vault: VaultState,
    amount: u64,
    balance_before: u64,
    price: PriceReading,
    now: i64,
)
    requires
        vault.well_formed(),
        rejection(loan, vault, amount, balance_before, price, now) is None,
        loan.debt_amount * 10_000 <= scaled_value(loan.collateral_amount, price.price, price.expo)
            * vault.liquidation_threshold_bps,
        scaled_value(amount, price.price, price.expo) > 0,
    ensures
        !unhealthy(
            loan_after(loan, vault, amount, balance_before, price, now).debt_amount,
            scaled_value(
                loan_after(loan, vault, amount, balance_before, price, now).collateral_amount,
                price.price,
                price.expo,
            ),
            vault.liquidation_threshold_bps,
        ),
{
    let held = scaled_value(loan.collateral_amount, price.price, price.expo);
    let added = scaled_value(amount, price.price, price.expo);
    let after = loan_after(loan, vault, amount, balance_before, price, now);
    let total = scaled_value(after.collateral_amount, price.price, price.expo);
    let ltv = ltv_tier(vault, balance_before);
    let threshold = vault.liquidation_threshold_bps as int;
    let borrow = borrow_amount(vault, amount, balance_before, price);
    lemma_value_of_sum(loan.collateral_amount, amount, price.price, price.expo);
    assert(total >= held + added);
    assert(borrow * 10_000 <= added * ltv) by (nonlinear_arith)
        requires
            borrow == added * ltv / 10_000,
    ;
    assert(added * ltv < added * threshold) by (nonlinear_arith)
        requires
            added > 0,
            ltv < threshold,
    ;
    assert(held * threshold + added * threshold <= total * threshold) by (nonlinear_arith)
        requires
            total >= held + added,
            threshold >= 0,
    ;
    assert(borrow >= 0) by (nonlinear_arith)
        requires
            borrow == added * ltv / 10_000,
            added > 0,
            ltv >= 0,
    ;
    assert(after.debt_amount == loan.debt_amount + borrow);
}

} // verus!
