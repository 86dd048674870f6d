//! Deposit and borrow: lock collateral in a position and lend against its
//! value, at a loan-to-value tier that rewards depositors who already hold
//! the collateral asset.

use crate::errors::VaultError;
use crate::events::LoanCreated;
use crate::fixed_point::{
    collateral_value, lemma_scaled_value_not_negative, scaled_value, usd_value,
};
use crate::oracle::{fresh_price, is_fresh, PriceReading, MAX_PRICE_AGE};
use crate::state::{Identity, UserLoan, VaultState, BPS_DENOMINATOR};
use vstd::prelude::*;

verus! {

/// The balance of collateral asset, held before the deposit, from which the
/// holder bonus applies: a hundred whole units.
pub const BONUS_THRESHOLD: u64 = 100_000_000;

/// The loan-to-value tier of a depositor who held `balance_before` of the
/// collateral asset before depositing, in basis points.
pub open spec fn ltv_tier(vault: VaultState, balance_before: u64) -> int {
    if balance_before >= BONUS_THRESHOLD {
        vault.base_ltv_bps + vault.skr_holder_bonus_bps
    } else {
        vault.base_ltv_bps as int
    }
}

/// The loan given against collateral worth `full_value`, rounded down.
pub open spec fn borrow_for(full_value: int, ltv_bps: int) -> int {
    full_value * ltv_bps / (BPS_DENOMINATOR as int)
}

/// The loan that a deposit of `amount` is given at the price `price`.
pub open spec fn borrow_amount(
    vault: VaultState,
    amount: u64,
    balance_before: u64,
    price: PriceReading,
) -> int {
    borrow_for(scaled_value(amount, price.price, price.expo), ltv_tier(vault, balance_before))
}

/// The error a deposit ends with, if it ends with one. The tier is a 16-bit
/// number of basis points; the position's collateral and debt and the vault's
/// two totals are 64-bit counters. A deposit that would take any of them past
/// its end overflows.
pub open spec fn rejection(
    loan: UserLoan,
    vault: VaultState,
    amount: u64,
    balance_before: u64,
    price: PriceReading,
    now: i64,
) -> Option<VaultError> {
    let borrow = borrow_amount(vault, amount, balance_before, price);
    if vault.paused {
        Some(VaultError::Paused)
    } else if ltv_tier(vault, balance_before) > u16::MAX {
        Some(VaultError::MathOverflow)
    } else if !is_fresh(price.publish_time, now, MAX_PRICE_AGE) {
        Some(VaultError::StaleOracle)
    } else if usd_value(amount, price.price, price.expo) is Err {
        Some(usd_value(amount, price.price, price.expo)->Err_0)
    } else if loan.collateral_amount + amount > u64::MAX || loan.debt_amount + borrow > u64::MAX
        || vault.total_collateral + amount > u64::MAX || vault.total_debt + borrow > u64::MAX {
        Some(VaultError::MathOverflow)
    } else {
        None
    }
}

/// The position after a deposit that went through: more collateral, more debt,
/// the reward clock restarted, and the tier recorded if the position held no
/// collateral before.
pub open spec fn loan_after(
    loan: UserLoan,
    vault: VaultState,
    amount: u64,
    balance_before: u64,
    price: PriceReading,
    now: i64,
) -> UserLoan {
    UserLoan {
        collateral_amount: (loan.collateral_amount + amount) as u64,
        debt_amount: (loan.debt_amount + borrow_amount(vault, amount, balance_before, price)) as u64,
        last_harvest: now,
        initial_ltv_bps: if loan.collateral_amount == 0 {
            ltv_tier(vault, balance_before) as u16
        } else {
            loan.initial_ltv_bps
        },
        ..loan
    }
}

/// The vault after a deposit that went through: both totals grow by what the
/// position grew by.
pub open spec fn vault_after(
    vault: VaultState,
    amount: u64,
    balance_before: u64,
    price: PriceReading,
) -> VaultState {
    VaultState {
        total_collateral: (vault.total_collateral + amount) as u64,
        total_debt: (vault.total_debt + borrow_amount(vault, amount, balance_before, price)) as u64,
        ..vault
    }
}

/// What a deposit that went through reports.
pub open spec fn event(
    loan: UserLoan,
    vault: VaultState,
    amount: u64,
    balance_before: u64,
    price: PriceReading,
) -> LoanCreated {
    LoanCreated {
        user: loan.owner,
        collateral_amount: amount,
        debt_amount: borrow_amount(vault, amount, balance_before, price) as u64,
        ltv_bps: ltv_tier(vault, balance_before) as u16,
        guardian_pubkey: Identity::zero(),
    }
}

/// Deposits `skr_amount` of collateral into the position and borrows against
/// it.
///
/// `user_balance_before` is what the depositor held of the collateral asset
/// before the deposit. On success the caller moves `collateral_amount` of the
/// event from the depositor to the vault and mints `debt_amount` of the
/// borrowed asset to the depositor. On an error nothing has changed.
pub fn handler(
    user_loan: &mut UserLoan,
    vault_state: &mut VaultState,
    skr_amount: u64,
    user_balance_before: u64,
    price: &PriceReading,
    current_timestamp: i64,
) -> (created: Result<LoanCreated, VaultError>)
    ensures
        match created {
            Ok(ev) => {
                &&& rejection(
                    *old(user_loan),
                    *old(vault_state),
                    skr_amount,
                    user_balance_before,
                    *price,
                    current_timestamp,
                ) is None
                &&& ev == event(
                    *old(user_loan),
                    *old(vault_state),
                    skr_amount,
                    user_balance_before,
                    *price,
                )
                &&& *final(user_loan) == loan_after(
                    *old(user_loan),
                    *old(vault_state),
                    skr_amount,
                    user_balance_before,
                    *price,
                    current_timestamp,
                )
                &&& *final(vault_state) == vault_after(
                    *old(vault_state),
                    skr_amount,
                    user_balance_before,
                    *price,
                )
            },
            Err(e) => {
                &&& rejection(
                    *old(user_loan),
                    *old(vault_state),
                    skr_amount,
                    user_balance_before,
                    *price,
                    current_timestamp,
                ) == Some(e)
                &&& *final(user_loan) == *old(user_loan)
                &&& *final(vault_state) == *old(vault_state)
            },
        },
{
    if vault_state.paused {
        return Err(VaultError::Paused);
    }
    let ltv_bps: u16 = if user_balance_before >= BONUS_THRESHOLD {
        match vault_state.base_ltv_bps.checked_add(vault_state.skr_holder_bonus_bps) {
            Some(sum) => sum,
            None => {
                return Err(VaultError::MathOverflow);
            },
        }
    } else {
        vault_state.base_ltv_bps
    };
    let reading: PriceReading = match fresh_price(price, current_timestamp) {
        Ok(r) => r,
        Err(e) => {
            return Err(e);
        },
    };
    let full_value: u128 = match collateral_value(skr_amount, reading.price, reading.expo) {
        Ok(v) => v,
        Err(e) => {
            return Err(e);
        },
    };
    let borrow_wide: u128 = match full_value.checked_mul(ltv_bps as u128) {
        Some(product) => product / (BPS_DENOMINATOR as u128),
        None => {
            proof {
                lemma_large_product_large_loan(full_value as int, ltv_bps as int);
            }
            return Err(VaultError::MathOverflow);
        },
    };
    if borrow_wide > u64::MAX as u128 {
        return Err(VaultError::MathOverflow);
    }
    let borrow: u64 = borrow_wide as u64;
    let collateral_amount: u64 = match user_loan.collateral_amount.checked_add(skr_amount) {
        Some(sum) => sum,
        None => {
            return Err(VaultError::MathOverflow);
        },
    };
    let debt_amount: u64 = match user_loan.debt_amount.checked_add(borrow) {
        Some(sum) => sum,
        None => {
            return Err(VaultError::MathOverflow);
        },
    };
    let total_collateral: u64 = match vault_state.total_collateral.checked_add(skr_amount) {
        Some(sum) => sum,
        None => {
            return Err(VaultError::MathOverflow);
        },
    };
    let total_debt: u64 = match vault_state.total_debt.checked_add(borrow) {
        Some(sum) => sum,
        None => {
            return Err(VaultError::MathOverflow);
        },
    };
    if user_loan.collateral_amount == 0 {
        user_loan.initial_ltv_bps = ltv_bps;
    }
    user_loan.collateral_amount = collateral_amount;
    user_loan.debt_amount = debt_amount;
    user_loan.last_harvest = current_timestamp;
    vault_state.total_collateral = total_collateral;
    vault_state.total_debt = total_debt;
    Ok(
        LoanCreated {
            user: user_loan.owner,
            collateral_amount: skr_amount,
            debt_amount: borrow,
            ltv_bps,
            guardian_pubkey: Identity::default(),
        },
    )
}

/// A product that does not fit in 128 bits is still beyond 64 bits after the
/// division by ten thousand.
proof fn lemma_large_product_large_loan(full_value: int, ltv_bps: int)
    requires
        full_value * ltv_bps > u128::MAX,
    ensures
        borrow_for(full_value, ltv_bps) > u64::MAX,
{
}

/// No deposit is given a negative loan.
pub proof fn lemma_borrow_not_negative(
    vault: VaultState,
    amount: u64,
    balance_before: u64,
    price: PriceReading,
)
    requires
        price.price > 0,
    ensures
        borrow_amount(vault, amount, balance_before, price) >= 0,
{
    let value = scaled_value(amount, price.price, price.expo);
    let ltv = ltv_tier(vault, balance_before);
    lemma_scaled_value_not_negative(amount, price.price, price.expo);
    assert(value * ltv / 10_000 >= 0) by (nonlinear_arith)
        requires
            value >= 0,
            ltv >= 0,
    ;
}

/// Opens an empty position for `user`: no collateral, no debt, no cooldown.
///
/// A user has at most one position; whoever keeps the positions refuses a
/// second one for the same user.
pub fn init_user_loan(user: Identity, created_at: i64, bump: u8) -> (loan: UserLoan)
    ensures
        loan == opened_loan(user, created_at, bump),
{
    UserLoan {
        owner: user,
        collateral_amount: 0,
        debt_amount: 0,
        created_at,
        last_harvest: 0,
        unstake_requested_at: 0,
        guardian_pubkey: Identity::default(),
        initial_ltv_bps: 0,
        bump,
    }
}

/// The position that [`init_user_loan`] opens.
pub open spec fn opened_loan(user: Identity, created_at: i64, bump: u8) -> UserLoan {
    UserLoan {
        owner: user,
        collateral_amount: 0,
        debt_amount: 0,
        created_at,
        last_harvest: 0,
        unstake_requested_at: 0,
        guardian_pubkey: Identity::zero(),
        initial_ltv_bps: 0,
        bump,
    }
}

} // verus!
