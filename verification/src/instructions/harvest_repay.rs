//! Harvest: accrue a position's staking rewards for the time since its last
//! harvest, keep the protocol's fee, and pay the rest against the debt.
//!
//! Rewards are simulated at seven percent a year, simple interest, on the
//! collateral. The part that repays debt is converted at a fixed rate of ten
//! units of the borrowed asset for one of collateral.

use crate::errors::VaultError;
use crate::events::RewardHarvested;
use crate::state::{UserLoan, VaultState, BPS_DENOMINATOR};
use vstd::prelude::*;

verus! {

/// Yearly reward rate, in percent.
pub const REWARD_RATE_PERCENT: u128 = 7;

/// A hundred percent times the seconds of a year of 365 days: what
/// `collateral * rate * seconds` is divided by.
pub const REWARD_DIVISOR: u128 = 3_153_600_000;

/// Units of the borrowed asset that one unit of rewards repays.
pub const SIMULATED_PRICE: u64 = 10;

/// Seconds between the position's last harvest and `now`; not positive where
/// the last harvest is not in the past.
pub open spec fn elapsed(loan: UserLoan, now: i64) -> int {
    now - loan.last_harvest
}

/// Collateral times rate times time, before the division that turns it into
/// rewards.
pub open spec fn reward_product(collateral: u64, seconds: int) -> int {
    collateral * REWARD_RATE_PERCENT * seconds
}

/// The rewards that `collateral` earns in `seconds`, rounded down.
pub open spec fn rewards_for(collateral: u64, seconds: int) -> int {
    reward_product(collateral, seconds) / (REWARD_DIVISOR as int)
}

/// The protocol's share of `rewards`, rounded down.
pub open spec fn fee_for(rewards: int, fee_bps: u16) -> int {
    rewards * fee_bps / (BPS_DENOMINATOR as int)
}

/// What `rewards` repay once the fee is taken, in units of the borrowed asset.
pub open spec fn debt_reduction_for(rewards: int, fee_bps: u16) -> int {
    (rewards - fee_for(rewards, fee_bps)) * SIMULATED_PRICE
}

/// `a - b`, or zero where `b` is the larger.
pub open spec fn clamped_sub(a: int, b: int) -> int {
    if a >= b {
        a - b
    } else {
        0
    }
}

/// The error a harvest at `now` ends with, if it ends with one.
///
/// The product behind the rewards is taken in 128 bits; the rewards, the
/// product behind the fee and the debt reduction in 64. A fee above the
/// rewards, which takes a fee rate above a hundred percent, counts as an
/// overflow too.
pub open spec fn rejection(loan: UserLoan, vault: VaultState, now: i64) -> Option<VaultError> {
    let rewards = rewards_for(loan.collateral_amount, elapsed(loan, now));
    if vault.paused {
        Some(VaultError::Paused)
    } else if elapsed(loan, now) <= 0 {
        None
    } else if reward_product(loan.collateral_amount, elapsed(loan, now)) > u128::MAX || rewards
        > u64::MAX {
        Some(VaultError::MathOverflow)
    } else if rewards == 0 {
        None
    } else if rewards * vault.harvest_fee_bps > u64::MAX || fee_for(rewards, vault.harvest_fee_bps)
        > rewards || debt_reduction_for(rewards, vault.harvest_fee_bps) > u64::MAX {
        Some(VaultError::MathOverflow)
    } else {
        None
    }
}

/// Whether a harvest at `now` goes through and moves the position's clock:
/// time has passed and nothing overflows.
pub open spec fn advances(loan: UserLoan, vault: VaultState, now: i64) -> bool {
    rejection(loan, vault, now) is None && elapsed(loan, now) > 0
}

/// Whether a harvest at `now` has rewards to hand out.
pub open spec fn pays(loan: UserLoan, vault: VaultState, now: i64) -> bool {
    advances(loan, vault, now) && rewards_for(loan.collateral_amount, elapsed(loan, now)) > 0
}

/// The debt a paying harvest at `now` takes off the position: the debt
/// reduction, but no more than the position owes.
pub open spec fn debt_repaid(loan: UserLoan, vault: VaultState, now: i64) -> int {
    let reduction = debt_reduction_for(
        rewards_for(loan.collateral_amount, elapsed(loan, now)),
        vault.harvest_fee_bps,
    );
    loan.debt_amount - clamped_sub(loan.debt_amount as int, reduction)
}

/// The position after a harvest at `now`. A harvest that is rejected, or finds
/// that no time has passed, leaves it as it was. Any other moves its clock to
/// `now`, and one that pays lowers its debt as well.
pub open spec fn loan_after(loan: UserLoan, vault: VaultState, now: i64) -> UserLoan {
    if pays(loan, vault, now) {
        UserLoan {
            debt_amount: (loan.debt_amount - debt_repaid(loan, vault, now)) as u64,
            last_harvest: now,
            ..loan
        }
    } else if advances(loan, vault, now) {
        UserLoan { last_harvest: now, ..loan }
    } else {
        loan
    }
}

/// The vault after a harvest at `now`: only a paying harvest touches it, and
/// it takes what the position repaid off the total debt, stopping at zero.
pub open spec fn vault_after(loan: UserLoan, vault: VaultState, now: i64) -> VaultState {
    if pays(loan, vault, now) {
        VaultState {
            total_debt: clamped_sub(vault.total_debt as int, debt_repaid(loan, vault, now)) as u64,
            ..vault
        }
    } else {
        vault
    }
}

/// What a harvest at `now` reports: nothing unless it pays.
pub open spec fn event(loan: UserLoan, vault: VaultState, now: i64) -> Option<RewardHarvested> {
    let rewards = rewards_for(loan.collateral_amount, elapsed(loan, now));
    if pays(loan, vault, now) {
        Some(
            RewardHarvested {
                user: loan.owner,
                rewards_earned: rewards as u64,
                fee_taken: fee_for(rewards, vault.harvest_fee_bps) as u64,
                debt_reduced: debt_repaid(loan, vault, now) as u64,
            },
        )
    } else {
        None
    }
}

/// A harvest made again at the same time is idle: it leaves the position and
/// the vault as the first one left them, and it has nothing to report. It is
/// rejected only if the first one was.
pub proof fn lemma_repeated_harvest_is_idle(loan: UserLoan, vault: VaultState, now: i64)
    ensures
        loan_after(loan_after(loan, vault, now), vault_after(loan, vault, now), now) == loan_after(
            loan,
            vault,
            now,
        ),
        vault_after(loan_after(loan, vault, now), vault_after(loan, vault, now), now)
            == vault_after(loan, vault, now),
        event(loan_after(loan, vault, now), vault_after(loan, vault, now), now) is None,
        rejection(loan, vault, now) is None ==> rejection(
            loan_after(loan, vault, now),
            vault_after(loan, vault, now),
            now,
        ) is None,
{
}

/// Harvests the position's rewards at `current_timestamp`.
///
/// On success the caller mints `fee_taken` units of collateral to the
/// treasury, where the event is there and the fee is not zero. A harvest
/// never adds to the position's collateral or debt.
pub fn handler(user_loan: &mut UserLoan, vault_state: &mut VaultState, current_timestamp: i64) -> (harvested:
    Result<Option<RewardHarvested>, VaultError>)
    ensures
        match harvested {
            Ok(ev) => rejection(*old(user_loan), *old(vault_state), current_timestamp) is None
                && ev == event(*old(user_loan), *old(vault_state), current_timestamp),
            Err(e) => rejection(*old(user_loan), *old(vault_state), current_timestamp) == Some(e),
        },
        *final(user_loan) == loan_after(*old(user_loan), *old(vault_state), current_timestamp),
        *final(vault_state) == vault_after(*old(user_loan), *old(vault_state), current_timestamp),
        final(user_loan).debt_amount <= old(user_loan).debt_amount,
        final(user_loan).collateral_amount == old(user_loan).collateral_amount,
{
    if vault_state.paused {
        return Err(VaultError::Paused);
    }
    let time_elapsed: i128 = current_timestamp as i128 - user_loan.last_harvest as i128;
    if time_elapsed <= 0 {
        return Ok(None);
    }
    let weighted: u128 = user_loan.collateral_amount as u128 * REWARD_RATE_PERCENT;
    let accrued: u128 = match weighted.checked_mul(time_elapsed as u128) {
        Some(product) => product / REWARD_DIVISOR,
        None => {
            return Err(VaultError::MathOverflow);
        },
    };
    if accrued > u64::MAX as u128 {
        return Err(VaultError::MathOverflow);
    }
    let rewards_earned: u64 = accrued as u64;
    if rewards_earned == 0 {
        user_loan.last_harvest = current_timestamp;
        return Ok(None);
    }
    let fee_amount: u64 = match rewards_earned.checked_mul(vault_state.harvest_fee_bps as u64) {
        Some(product) => product / (BPS_DENOMINATOR as u64),
        None => {
            return Err(VaultError::MathOverflow);
        },
    };
    let net_rewards: u64 = match rewards_earned.checked_sub(fee_amount) {
        Some(net) => net,
        None => {
            return Err(VaultError::MathOverflow);
        },
    };
    let debt_reduction: u64 = match net_rewards.checked_mul(SIMULATED_PRICE) {
        Some(reduction) => reduction,
        None => {
            return Err(VaultError::MathOverflow);
        },
    };
    let start_debt: u64 = user_loan.debt_amount;
    let new_debt: u64 = if start_debt >= debt_reduction {
        start_debt - debt_reduction
    } else {
        0
    };
    let actual_reduction: u64 = start_debt - new_debt;
    user_loan.debt_amount = new_debt;
    user_loan.last_harvest = current_timestamp;
    vault_state.total_debt = if vault_state.total_debt >= actual_reduction {
        vault_state.total_debt - actual_reduction
    } else {
        0
    };
    Ok(
        Some(
            RewardHarvested {
                user: user_loan.owner,
                rewards_earned,
                fee_taken: fee_amount,
                debt_reduced: actual_reduction,
            },
        ),
    )
}

} // verus!
