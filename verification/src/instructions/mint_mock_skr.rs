//! The faucet for mock collateral. It exists so that the vault can be tried
//! out on a development network, and nowhere else.

use crate::errors::VaultError;
use vstd::prelude::*;

verus! {

/// Decides what the faucet hands out: `amount` on a development network,
/// and nothing but an error anywhere else. The caller does the minting.
pub fn handler(devnet: bool, amount: u64) -> (minted: Result<u64, VaultError>)
    ensures
        minted == if devnet {
            Ok::<u64, VaultError>(amount)
        } else {
            Err(VaultError::DevnetOnly)
        },
{
    if devnet {
        Ok(amount)
    } else {
        Err(VaultError::DevnetOnly)
    }
}

} // verus!
