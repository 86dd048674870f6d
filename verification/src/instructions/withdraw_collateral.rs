//! Withdrawal: collateral leaves the vault in two calls. The first, made
//! while the position owes nothing, starts a cooldown; the second, made once
//! the cooldown has run, pays the collateral out and ends the position.
//! There is no way back from a cooldown that has started.

use crate::errors::VaultError;
use crate::events::CollateralWithdrawn;
use crate::state::{UserLoan, VaultState};
use vstd::prelude::*;

verus! {

/// How a withdrawal that was not rejected ended.
#[derive(Clone, Copy, Debug, PartialEq, Eq)]
pub enum Withdrawal {
    /// The cooldown has started and no funds have moved. The position lives
    /// on as given here.
    CooldownStarted(UserLoan),
    /// The collateral has left the vault and the position is gone.
    Completed(CollateralWithdrawn),
}

/// The error a withdrawal at `now` ends with, if it ends with one.
pub open spec fn rejection(loan: UserLoan, vault: VaultState, now: i64) -> Option<VaultError> {
    if vault.paused {
        Some(VaultError::Paused)
    } else if loan.debt_amount != 0 {
        Some(VaultError::DebtNotZero)
    } else if !loan.cooldown_pending() {
        None
    } else if now - loan.unstake_requested_at < vault.cooldown_period {
        Some(VaultError::CooldownNotMet)
    } else if vault.total_collateral < loan.collateral_amount {
        Some(VaultError::MathOverflow)
    } else {
        None
    }
}

/// The position once its cooldown has started at `now`.
pub open spec fn cooling_loan(loan: UserLoan, now: i64) -> UserLoan {
    UserLoan { unstake_requested_at: now, ..loan }
}

/// The vault after the position's collateral has left it.
pub open spec fn vault_after(loan: UserLoan, vault: VaultState) -> VaultState {
    VaultState {
        total_collateral: (vault.total_collateral - loan.collateral_amount) as u64,
        ..vault
    }
}

/// What a completed withdrawal reports.
pub open spec fn event(loan: UserLoan) -> CollateralWithdrawn {
    CollateralWithdrawn { user: loan.owner, amount: loan.collateral_amount }
}

/// Moves the position one step towards withdrawal.
///
/// After `CooldownStarted` the caller keeps the position it is handed. After
/// `Completed` it pays `amount` of collateral out to the owner and discards
/// the record. On an error nothing has changed.
pub fn handler(user_loan: &UserLoan, vault_state: &mut VaultState, current_timestamp: i64) -> (withdrawn:
    Result<Withdrawal, VaultError>)
    ensures
        match withdrawn {
            Ok(Withdrawal::CooldownStarted(loan)) => {
                &&& rejection(*user_loan, *old(vault_state), current_timestamp) is None
                &&& !user_loan.cooldown_pending()
                &&& loan == cooling_loan(*user_loan, current_timestamp)
                &&& *final(vault_state) == *old(vault_state)
            },
            Ok(Withdrawal::Completed(ev)) => {
                &&& rejection(*user_loan, *old(vault_state), current_timestamp) is None
                &&& user_loan.cooldown_pending()
                &&& ev == event(*user_loan)
                &&& *final(vault_state) == vault_after(*user_loan, *old(vault_state))
            },
            Err(e) => {
                &&& rejection(*user_loan, *old(vault_state), current_timestamp) == Some(e)
                &&& *final(vault_state) == *old(vault_state)
            },
        },
{
    if vault_state.paused {
        return Err(VaultError::Paused);
    }
    if user_loan.debt_amount != 0 {
        return Err(VaultError::DebtNotZero);
    }
    if user_loan.unstake_requested_at == 0 {
        let mut loan: UserLoan = *user_loan;
        loan.unstake_requested_at = current_timestamp;
        return Ok(Withdrawal::CooldownStarted(loan));
    }
    let passed: i128 = current_timestamp as i128 - user_loan.unstake_requested_at as i128;
    if passed < vault_state.cooldown_period as i128 {
        return Err(VaultError::CooldownNotMet);
    }
    let amount: u64 = user_loan.collateral_amount;
    let total_collateral: u64 = match vault_state.total_collateral.checked_sub(amount) {
        Some(rest) => rest,
        None => {
            return Err(VaultError::MathOverflow);
        },
    };
    vault_state.total_collateral = total_collateral;
    Ok(Withdrawal::Completed(CollateralWithdrawn { user: user_loan.owner, amount }))
}

} // verus!
