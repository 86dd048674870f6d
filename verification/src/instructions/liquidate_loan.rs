//! Liquidation: anyone may close a position whose debt has reached the
//! liquidation threshold of its collateral's value. The liquidator surrenders
//! the whole debt and receives the whole collateral; no part of the position
//! survives.

use crate::errors::VaultError;
use crate::events::LoanLiquidated;
use crate::fixed_point::{collateral_value, scaled_value, usd_value};
use crate::oracle::{fresh_price, is_fresh, PriceReading, MAX_PRICE_AGE};
use crate::state::{Identity, UserLoan, VaultState, BPS_DENOMINATOR};
use vstd::prelude::*;

verus! {

/// Whether a debt of `debt` against collateral worth `value` has reached the
/// threshold. The boundary itself counts as reached.
pub open spec fn unhealthy(debt: u64, value: int, threshold_bps: u16) -> bool {
    debt * BPS_DENOMINATOR >= value * threshold_bps
}

/// The error a liquidation ends with, if it ends with one.
///
/// The collateral's value times the threshold is taken in 128 bits and
/// overflows where it does not fit, before health is looked at. The vault's
/// totals must cover what the position holds and owes; where they do not, the
/// books are broken and the liquidation overflows rather than going on.
pub open spec fn rejection(loan: UserLoan, vault: VaultState, price: PriceReading, now: i64) -> Option<
    VaultError,
> {
    let value = scaled_value(loan.collateral_amount, price.price, price.expo);
    if vault.paused {
        Some(VaultError::Paused)
    } else if !is_fresh(price.publish_time, now, MAX_PRICE_AGE) {
        Some(VaultError::StaleOracle)
    } else if usd_value(loan.collateral_amount, price.price, price.expo) is Err {
        Some(usd_value(loan.collateral_amount, price.price, price.expo)->Err_0)
    } else if value * vault.liquidation_threshold_bps > u128::MAX {
        Some(VaultError::MathOverflow)
    } else if !unhealthy(loan.debt_amount, value, vault.liquidation_threshold_bps) {
        Some(VaultError::LoanHealthy)
    } else if vault.total_debt < loan.debt_amount || vault.total_collateral
        < loan.collateral_amount {
        Some(VaultError::MathOverflow)
    } else {
        None
    }
}

/// The vault after the position was liquidated: the totals without what the
/// position held and owed.
pub open spec fn vault_after(loan: UserLoan, vault: VaultState) -> VaultState {
    VaultState {
        total_debt: (vault.total_debt - loan.debt_amount) as u64,
        total_collateral: (vault.total_collateral - loan.collateral_amount) as u64,
        ..vault
    }
}

/// What a liquidation reports.
pub open spec fn event(loan: UserLoan, liquidator: Identity) -> LoanLiquidated {
    LoanLiquidated {
        user: loan.owner,
        liquidator,
        collateral_seized: loan.collateral_amount,
        debt_repaid: loan.debt_amount,
    }
}

/// The threshold is inclusive: a debt that is exactly at it is unhealthy, and
/// one that is short of it by the least there is is not.
pub proof fn lemma_threshold_is_inclusive(debt: u64, value: int, threshold_bps: u16)
    ensures
        debt * BPS_DENOMINATOR == value * threshold_bps ==> unhealthy(debt, value, threshold_bps),
        debt * BPS_DENOMINATOR == value * threshold_bps - 1 ==> !unhealthy(
            debt,
            value,
            threshold_bps,
        ),
{
}

/// Health alone decides a liquidation that nothing else stands against: with
/// the vault running, the price fresh and positive, the arithmetic within
/// its bounds and the totals covering the position, the position is
/// liquidated if its debt has reached the threshold, the boundary included,
/// and the liquidation is rejected as aimed at a healthy loan if not.
pub proof fn lemma_liquidation_follows_health(
    loan: UserLoan,
    vault: VaultState,
    price: PriceReading,
    now: i64,
)
    requires
        !vault.paused,
        is_fresh(price.publish_time, now, MAX_PRICE_AGE),
        usd_value(loan.collateral_amount, price.price, price.expo) is Ok,
        scaled_value(loan.collateral_amount, price.price, price.expo)
            * vault.liquidation_threshold_bps <= u128::MAX,
        loan.debt_amount <= vault.total_debt,
        loan.collateral_amount <= vault.total_collateral,
    ensures
        loan.debt_amount * BPS_DENOMINATOR >= scaled_value(
            loan.collateral_amount,
            price.price,
            price.expo,
        ) * vault.liquidation_threshold_bps ==> rejection(loan, vault, price, now) is None,
        loan.debt_amount * BPS_DENOMINATOR < scaled_value(
            loan.collateral_amount,
            price.price,
            price.expo,
        ) * vault.liquidation_threshold_bps ==> rejection(loan, vault, price, now) == Some(
            VaultError::LoanHealthy,
        ),
{
}

/// Liquidates the position on behalf of `liquidator`.
///
/// On success the position is gone: the caller burns `debt_repaid` of the
/// borrowed asset from the liquidator, hands it `collateral_seized`, and
/// discards the record. On an error nothing has changed.
pub fn handler(
    user_loan: &UserLoan,
    vault_state: &mut VaultState,
    liquidator: Identity,
    price: &PriceReading,
    current_timestamp: i64,
) -> (liquidated: Result<LoanLiquidated, VaultError>)
    ensures
        match liquidated {
            Ok(ev) => {
                &&& rejection(*user_loan, *old(vault_state), *price, current_timestamp) is None
                &&& ev == event(*user_loan, liquidator)
                &&& *final(vault_state) == vault_after(*user_loan, *old(vault_state))
            },
            Err(e) => {
                &&& rejection(*user_loan, *old(vault_state), *price, current_timestamp) == Some(e)
                &&& *final(vault_state) == *old(vault_state)
            },
        },
{
    if vault_state.paused {
        return Err(VaultError::Paused);
    }
    let reading: PriceReading = match fresh_price(price, current_timestamp) {
        Ok(r) => r,
        Err(e) => {
            return Err(e);
        },
    };
    let val_usd: u128 = match collateral_value(
        user_loan.collateral_amount,
        reading.price,
        reading.expo,
    ) {
        Ok(v) => v,
        Err(e) => {
            return Err(e);
        },
    };
    let denominator: u128 = BPS_DENOMINATOR as u128;
    assert(user_loan.debt_amount * denominator <= u128::MAX) by (nonlinear_arith)
        requires
            user_loan.debt_amount <= u64::MAX,
            denominator == 10_000,
    ;
    let debt_scaled: u128 = user_loan.debt_amount as u128 * denominator;
    let limit: u128 = match val_usd.checked_mul(vault_state.liquidation_threshold_bps as u128) {
        Some(product) => product,
        None => {
            return Err(VaultError::MathOverflow);
        },
    };
    if debt_scaled < limit {
        return Err(VaultError::LoanHealthy);
    }
    let total_debt: u64 = match vault_state.total_debt.checked_sub(user_loan.debt_amount) {
        Some(rest) => rest,
        None => {
            return Err(VaultError::MathOverflow);
        },
    };
    let total_collateral: u64 = match vault_state.total_collateral.checked_sub(
        user_loan.collateral_amount,
    ) {
        Some(rest) => rest,
        None => {
            return Err(VaultError::MathOverflow);
        },
    };
    vault_state.total_debt = total_debt;
    vault_state.total_collateral = total_collateral;
    Ok(
        LoanLiquidated {
            user: user_loan.owner,
            liquidator,
            collateral_seized: user_loan.collateral_amount,
            debt_repaid: user_loan.debt_amount,
        },
    )
}

} // verus!
