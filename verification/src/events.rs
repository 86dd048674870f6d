//! What the vault reports of each completed operation, for readers outside
//! it. The vault itself never reads these records back.

use crate::state::Identity;
use vstd::prelude::*;

verus! {

/// A deposit was taken and a loan given against it.
#[derive(Clone, Copy, Debug, PartialEq, Eq)]
pub struct LoanCreated {
    pub user: Identity,
    /// Collateral added by this deposit.
    pub collateral_amount: u64,
    /// Debt added by this deposit.
    pub debt_amount: u64,
    /// The loan-to-value tier that was applied, in basis points.
    pub ltv_bps: u16,
    /// The guardian assigned to the loan; nobody, for now.
    pub guardian_pubkey: Identity,
}

/// Rewards were accrued for a position and used against its debt.
#[derive(Clone, Copy, Debug, PartialEq, Eq)]
pub struct RewardHarvested {
    pub user: Identity,
    pub rewards_earned: u64,
    /// The protocol's share of the rewards, owed to the treasury.
    pub fee_taken: u64,
    /// By how much the position's debt went down.
    pub debt_reduced: u64,
}

/// A position's collateral left the vault, back to its owner.
#[derive(Clone, Copy, Debug, PartialEq, Eq)]
pub struct CollateralWithdrawn {
    pub user: Identity,
    pub amount: u64,
}

/// A position was closed by a liquidator.
#[derive(Clone, Copy, Debug, PartialEq, Eq)]
pub struct LoanLiquidated {
    pub user: Identity,
    pub liquidator: Identity,
    /// The collateral handed to the liquidator: all the position had.
    pub collateral_seized: u64,
    /// The debt the liquidator surrendered: all the position owed.
    pub debt_repaid: u64,
}

/// The vault was paused.
#[derive(Clone, Copy, Debug, PartialEq, Eq)]
pub struct EmergencyPause {
    pub timestamp: i64,
}

/// A guardian entered the registry.
#[derive(Clone, Debug, PartialEq, Eq)]
pub struct GuardianAdded {
    pub guardian_pubkey: Identity,
    pub name: String,
}

} // verus!
