//! Who may call what, and on which accounts. These checks come before the
//! operation itself.

use crate::errors::VaultError;
use crate::state::{Identity, UserLoan, VaultState};
use vstd::prelude::*;

verus! {

/// A paused vault takes no deposit, harvest, withdrawal or liquidation. The
/// operations check this themselves; a caller that has to fetch anything
/// before it can call them checks it first.
pub fn require_running(vault_state: &VaultState) -> (allowed: Result<(), VaultError>)
    ensures
        allowed == if vault_state.paused {
            Err::<(), VaultError>(VaultError::Paused)
        } else {
            Ok(())
        },
{
    if vault_state.paused {
        Err(VaultError::Paused)
    } else {
        Ok(())
    }
}

/// Harvest and withdrawal are for the position's owner alone.
pub fn require_owner(user_loan: &UserLoan, caller: &Identity) -> (allowed: Result<(), VaultError>)
    ensures
        allowed == if user_loan.owner == *caller {
            Ok::<(), VaultError>(())
        } else {
            Err(VaultError::Unauthorized)
        },
{
    if user_loan.owner == *caller {
        Ok(())
    } else {
        Err(VaultError::Unauthorized)
    }
}

/// A price counts only if it comes from the feed the vault trusts.
pub fn require_price_feed(vault_state: &VaultState, price_feed: &Identity) -> (allowed: Result<
    (),
    VaultError,
>)
    ensures
        allowed == if vault_state.skr_price_feed == *price_feed {
            Ok::<(), VaultError>(())
        } else {
            Err(VaultError::InvalidPriceFeed)
        },
{
    if vault_state.skr_price_feed == *price_feed {
        Ok(())
    } else {
        Err(VaultError::InvalidPriceFeed)
    }
}

/// The vault lends by minting, so it must be the borrowed asset's mint
/// authority. An asset without a mint authority will not do either.
pub fn require_mint_authority(vault: &Identity, mint_authority: &Option<Identity>) -> (allowed:
    Result<(), VaultError>)
    ensures
        allowed == if *mint_authority == Some(*vault) {
            Ok::<(), VaultError>(())
        } else {
            Err(VaultError::InvalidMintAuthority)
        },
{
    match mint_authority {
        Some(authority) => {
            if *authority == *vault {
                Ok(())
            } else {
                Err(VaultError::InvalidMintAuthority)
            }
        },
        None => Err(VaultError::InvalidMintAuthority),
    }
}

} // verus!
