//! Vault set-up: the one place where the configuration is checked against
//! its bounds.

use crate::errors::VaultError;
use crate::state::{
    Identity, VaultState, MAX_BASE_LTV_BPS, MAX_BONUS_LTV_BPS, MAX_HARVEST_FEE_BPS,
    MAX_LIQUIDATION_PENALTY_BPS, MAX_LIQUIDATION_THRESHOLD_BPS,
};
use vstd::prelude::*;

verus! {

/// The error that a set-up with these parameters ends with, if it ends with
/// one. The checks run in this order, and the first that fails decides.
pub open spec fn rejection(
    harvest_fee_bps: u16,
    base_ltv_bps: u16,
    skr_holder_bonus_bps: u16,
    cooldown_period: i64,
    liquidation_threshold_bps: u16,
    liquidation_penalty_bps: u16,
) -> Option<VaultError> {
    if base_ltv_bps > MAX_BASE_LTV_BPS {
        Some(VaultError::LTVTooHigh)
    } else if base_ltv_bps + skr_holder_bonus_bps > MAX_BONUS_LTV_BPS {
        Some(VaultError::LTVTooHigh)
    } else if liquidation_threshold_bps <= base_ltv_bps + skr_holder_bonus_bps {
        Some(VaultError::InvalidThreshold)
    } else if liquidation_threshold_bps > MAX_LIQUIDATION_THRESHOLD_BPS {
        Some(VaultError::InvalidThreshold)
    } else if harvest_fee_bps > MAX_HARVEST_FEE_BPS {
        Some(VaultError::CommissionTooHigh)
    } else if liquidation_penalty_bps > MAX_LIQUIDATION_PENALTY_BPS {
        Some(VaultError::CommissionTooHigh)
    } else if cooldown_period < 0 {
        Some(VaultError::GenericError)
    } else {
        None
    }
}

/// The vault as it is set up: the parameters as given, nothing held, nothing
/// owed, not paused, and no price feed chosen yet.
pub open spec fn initial_vault(
    authority: Identity,
    labs_treasury: Identity,
    bump: u8,
    harvest_fee_bps: u16,
    base_ltv_bps: u16,
    skr_holder_bonus_bps: u16,
    cooldown_period: i64,
    liquidation_threshold_bps: u16,
    liquidation_penalty_bps: u16,
) -> VaultState {
    VaultState {
        authority,
        labs_treasury,
        total_collateral: 0,
        total_debt: 0,
        harvest_fee_bps,
        base_ltv_bps,
        skr_holder_bonus_bps,
        cooldown_period,
        liquidation_threshold_bps,
        liquidation_penalty_bps,
        paused: false,
        skr_price_feed: Identity::zero(),
        bump,
    }
}

/// Sets the vault up, or says which bound the parameters break. A vault that
/// comes out of here is well formed.
pub fn handler(
    authority: Identity,
    labs_treasury: Identity,
    bump: u8,
    harvest_fee_bps: u16,
    base_ltv_bps: u16,
    skr_holder_bonus_bps: u16,
    cooldown_period: i64,
    liquidation_threshold_bps: u16,
    liquidation_penalty_bps: u16,
) -> (vault: Result<VaultState, VaultError>)
    ensures
        match vault {
            Ok(v) => {
                &&& rejection(
                    harvest_fee_bps,
                    base_ltv_bps,
                    skr_holder_bonus_bps,
                    cooldown_period,
                    liquidation_threshold_bps,
                    liquidation_penalty_bps,
                ) is None
                &&& v == initial_vault(
                    authority,
                    labs_treasury,
                    bump,
                    harvest_fee_bps,
                    base_ltv_bps,
                    skr_holder_bonus_bps,
                    cooldown_period,
                    liquidation_threshold_bps,
                    liquidation_penalty_bps,
                )
                &&& v.well_formed()
            },
            Err(e) => rejection(
                harvest_fee_bps,
                base_ltv_bps,
                skr_holder_bonus_bps,
                cooldown_period,
                liquidation_threshold_bps,
                liquidation_penalty_bps,
            ) == Some(e),
        },
{
    let ltv_with_bonus: u32 = base_ltv_bps as u32 + skr_holder_bonus_bps as u32;
    if base_ltv_bps > MAX_BASE_LTV_BPS {
        return Err(VaultError::LTVTooHigh);
    }
    if ltv_with_bonus > MAX_BONUS_LTV_BPS as u32 {
        return Err(VaultError::LTVTooHigh);
    }
    if liquidation_threshold_bps as u32 <= ltv_with_bonus {
        return Err(VaultError::InvalidThreshold);
    }
    if liquidation_threshold_bps > MAX_LIQUIDATION_THRESHOLD_BPS {
        return Err(VaultError::InvalidThreshold);
    }
    if harvest_fee_bps > MAX_HARVEST_FEE_BPS {
        return Err(VaultError::CommissionTooHigh);
    }
    if liquidation_penalty_bps > MAX_LIQUIDATION_PENALTY_BPS {
        return Err(VaultError::CommissionTooHigh);
    }
    if cooldown_period < 0 {
        return Err(VaultError::GenericError);
    }
    Ok(
        VaultState {
            authority,
            labs_treasury,
            total_collateral: 0,
            total_debt: 0,
            harvest_fee_bps,
            base_ltv_bps,
            skr_holder_bonus_bps,
            cooldown_period,
            liquidation_threshold_bps,
            liquidation_penalty_bps,
            paused: false,
            skr_price_feed: Identity::default(),
            bump,
        },
    )
}

} // verus!
