//! What the vault's authority may do: pause and resume the vault, point it
//! at another price feed, and add guardians to the registry.

use crate::errors::VaultError;
use crate::events::{EmergencyPause, GuardianAdded};
use crate::state::{
    GuardianInfo, GuardianList, Identity, VaultState, MAX_GUARDIAN_COMMISSION_BPS,
    MAX_GUARDIAN_NAME_CHARS,
};
use vstd::prelude::*;
use vstd::string::StrSliceExecFns;

verus! {

/// Pauses the vault. Pausing a paused vault changes nothing.
pub fn emergency_pause(vault_state: &mut VaultState, timestamp: i64) -> (paused: EmergencyPause)
    ensures
        *final(vault_state) == (VaultState { paused: true, ..*old(vault_state) }),
        paused == (EmergencyPause { timestamp }),
{
    vault_state.paused = true;
    EmergencyPause { timestamp }
}

/// Lets a paused vault run again.
pub fn unpause(vault_state: &mut VaultState)
    ensures
        *final(vault_state) == (VaultState { paused: false, ..*old(vault_state) }),
{
    vault_state.paused = false;
}

/// Makes `new_price_feed` the vault's trusted price source.
pub fn update_oracle(vault_state: &mut VaultState, new_price_feed: Identity)
    ensures
        *final(vault_state) == (VaultState { skr_price_feed: new_price_feed, ..*old(vault_state) }),
{
    vault_state.skr_price_feed = new_price_feed;
}

/// The error that adding this guardian ends with, if it ends with one. The
/// registry counts its guardians in eight bits, and a guardian that would
/// take the count past 255 overflows.
pub open spec fn guardian_rejection(
    list: GuardianList,
    guardian_pubkey: Identity,
    name: Seq<char>,
    commission_bps: u16,
) -> Option<VaultError> {
    if commission_bps > MAX_GUARDIAN_COMMISSION_BPS {
        Some(VaultError::CommissionTooHigh)
    } else if name.len() > MAX_GUARDIAN_NAME_CHARS {
        Some(VaultError::NameTooLong)
    } else if list.lists(guardian_pubkey) {
        Some(VaultError::GuardianAlreadyWhitelisted)
    } else if list.count == u8::MAX {
        Some(VaultError::MathOverflow)
    } else {
        None
    }
}

/// Tells whether `who` is in the registry.
pub fn is_listed(list: &GuardianList, who: &Identity) -> (listed: bool)
    ensures
        listed == list.lists(*who),
{
    let mut i: usize = 0;
    while i < list.guardians.len()
        invariant
            i <= list.guardians@.len(),
            forall|k: int| 0 <= k < i ==> (#[trigger] list.guardians@[k]).pubkey != *who,
        decreases list.guardians@.len() - i,
    {
        if list.guardians[i].pubkey == *who {
            return true;
        }
        i += 1;
    }
    false
}

/// Adds a guardian at the end of the registry. `bump` is kept with the
/// registry when its first guardian enters. On an error nothing has changed.
pub fn add_guardian(
    guardian_list: &mut GuardianList,
    guardian_pubkey: Identity,
    name: String,
    commission_bps: u16,
    bump: u8,
) -> (added: Result<GuardianAdded, VaultError>)
    ensures
        match added {
            Ok(ev) => {
                &&& guardian_rejection(*old(guardian_list), guardian_pubkey, name@, commission_bps)
                    is None
                &&& final(guardian_list).guardians@ == old(guardian_list).guardians@.push(
                    GuardianInfo { pubkey: guardian_pubkey, name, commission_bps },
                )
                &&& final(guardian_list).count == old(guardian_list).count + 1
                &&& final(guardian_list).bump == if old(guardian_list).guardians@.len() == 0 {
                    bump
                } else {
                    old(guardian_list).bump
                }
                &&& ev == (GuardianAdded { guardian_pubkey, name })
            },
            Err(e) => {
                &&& guardian_rejection(*old(guardian_list), guardian_pubkey, name@, commission_bps)
                    == Some(e)
                &&& *final(guardian_list) == *old(guardian_list)
            },
        },
        old(guardian_list).well_formed() ==> final(guardian_list).well_formed(),
{
    if commission_bps > MAX_GUARDIAN_COMMISSION_BPS {
        return Err(VaultError::CommissionTooHigh);
    }
    if name.as_str().unicode_len() > MAX_GUARDIAN_NAME_CHARS {
        return Err(VaultError::NameTooLong);
    }
    if is_listed(guardian_list, &guardian_pubkey) {
        return Err(VaultError::GuardianAlreadyWhitelisted);
    }
    let count: u8 = match guardian_list.count.checked_add(1) {
        Some(sum) => sum,
        None => {
            return Err(VaultError::MathOverflow);
        },
    };
    let info = GuardianInfo { pubkey: guardian_pubkey, name: name.clone(), commission_bps };
    guardian_list.guardians.push(info);
    guardian_list.count = count;
    if guardian_list.guardians.len() == 1 {
        guardian_list.bump = bump;
    }
    Ok(GuardianAdded { guardian_pubkey, name })
}

} // verus!
