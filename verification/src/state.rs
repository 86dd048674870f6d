//! The records the vault keeps: its own configuration and totals, one
//! position per user, and the guardian registry.

use vstd::prelude::*;
use vstd::std_specs::cmp::PartialEqSpecImpl;

verus! {

/// Basis points in a whole.
pub const BPS_DENOMINATOR: u16 = 10_000;

/// Highest base loan-to-value ratio a vault may be set up with, in basis points.
pub const MAX_BASE_LTV_BPS: u16 = 8000;

/// Highest loan-to-value ratio, holder bonus included, in basis points.
pub const MAX_BONUS_LTV_BPS: u16 = 9000;

/// Highest liquidation threshold, in basis points.
pub const MAX_LIQUIDATION_THRESHOLD_BPS: u16 = 9500;

/// Highest share of the harvested rewards the protocol may keep, in basis points.
pub const MAX_HARVEST_FEE_BPS: u16 = 2000;

/// Highest liquidation penalty, in basis points.
pub const MAX_LIQUIDATION_PENALTY_BPS: u16 = 1500;

/// Highest commission a guardian may charge, in basis points.
pub const MAX_GUARDIAN_COMMISSION_BPS: u16 = 700;

/// Longest guardian display name, in characters.
pub const MAX_GUARDIAN_NAME_CHARS: usize = 32;

/// A 32-byte account identity.
#[derive(Clone, Copy, Debug)]
pub struct Identity {
    pub bytes: [u8; 32],
}

impl View for Identity {
    type V = Seq<u8>;

    open spec fn view(&self) -> Seq<u8> {
        self.bytes@
    }
}

impl Identity {
    /// The identity made of 32 zero bytes, which stands for "nobody".
    pub open spec fn zero() -> Identity {
        Identity { bytes: vstd::array::spec_array_fill_for_copy_type::<u8, 32>(0u8) }
    }

    /// Two identities are the same exactly when their bytes are.
    pub proof fn lemma_bytes_decide(a: Identity, b: Identity)
        ensures
            (a == b) <==> (a@ == b@),
    {
        if a@ == b@ {
            assert(a.bytes =~= b.bytes);
        }
    }
}

impl PartialEq for Identity {
    fn eq(&self, other: &Identity) -> (same: bool) {
        let mut i: usize = 0;
        while i < 32
            invariant
                i <= 32,
                forall|k: int| 0 <= k < i ==> self.bytes@[k] == other.bytes@[k],
            decreases 32 - i,
        {
            if self.bytes[i] != other.bytes[i] {
                return false;
            }
            i += 1;
        }
        proof {
            assert(self@ =~= other@);
            Identity::lemma_bytes_decide(*self, *other);
        }
        true
    }
}

impl PartialEqSpecImpl for Identity {
    open spec fn obeys_eq_spec() -> bool {
        true
    }

    open spec fn eq_spec(&self, other: &Identity) -> bool {
        *self == *other
    }
}

impl Eq for Identity {

}

impl Default for Identity {
    fn default() -> (id: Identity)
        ensures
            id == Identity::zero(),
    {
        Identity { bytes: [0u8; 32] }
    }
}

/// The vault's configuration and its running totals. There is one per
/// deployment.
#[derive(Clone, Copy, Debug, PartialEq, Eq)]
pub struct VaultState {
    /// Who may change the configuration.
    pub authority: Identity,
    /// Who receives the harvest fees.
    pub labs_treasury: Identity,
    /// Collateral held for all live positions together.
    pub total_collateral: u64,
    /// Debt owed by all live positions together.
    pub total_debt: u64,
    pub harvest_fee_bps: u16,
    pub base_ltv_bps: u16,
    pub skr_holder_bonus_bps: u16,
    /// Seconds between a withdrawal request and the withdrawal.
    pub cooldown_period: i64,
    pub liquidation_threshold_bps: u16,
    pub liquidation_penalty_bps: u16,
    /// While set, deposits, harvests, withdrawals and liquidations are rejected.
    pub paused: bool,
    /// The trusted price source.
    pub skr_price_feed: Identity,
    pub bump: u8,
}

impl VaultState {
    /// The bounds every vault is set up within: the loan-to-value ratios stay
    /// under the liquidation threshold, and each parameter under its cap.
    pub open spec fn well_formed(self) -> bool {
        &&& self.base_ltv_bps <= MAX_BASE_LTV_BPS
        &&& self.base_ltv_bps + self.skr_holder_bonus_bps <= MAX_BONUS_LTV_BPS
        &&& self.liquidation_threshold_bps > self.base_ltv_bps + self.skr_holder_bonus_bps
        &&& self.liquidation_threshold_bps <= MAX_LIQUIDATION_THRESHOLD_BPS
        &&& self.harvest_fee_bps <= MAX_HARVEST_FEE_BPS
        &&& self.liquidation_penalty_bps <= MAX_LIQUIDATION_PENALTY_BPS
        &&& self.cooldown_period >= 0
    }

    /// Tells whether the configuration is within its bounds.
    pub fn is_well_formed(&self) -> (ok: bool)
        ensures
            ok == self.well_formed(),
    {
        let ltv: u32 = self.base_ltv_bps as u32 + self.skr_holder_bonus_bps as u32;
        self.base_ltv_bps <= MAX_BASE_LTV_BPS && ltv <= MAX_BONUS_LTV_BPS as u32
            && self.liquidation_threshold_bps as u32 > ltv && self.liquidation_threshold_bps
            <= MAX_LIQUIDATION_THRESHOLD_BPS && self.harvest_fee_bps <= MAX_HARVEST_FEE_BPS
            && self.liquidation_penalty_bps <= MAX_LIQUIDATION_PENALTY_BPS && self.cooldown_period
            >= 0
    }
}

/// One user's position: the collateral it has locked and the debt it owes.
#[derive(Clone, Copy, Debug, PartialEq, Eq)]
pub struct UserLoan {
    pub owner: Identity,
    pub collateral_amount: u64,
    pub debt_amount: u64,
    pub created_at: i64,
    /// When rewards were last accrued for this position.
    pub last_harvest: i64,
    /// When the owner asked to withdraw; 0 while no cooldown is running.
    pub unstake_requested_at: i64,
    pub guardian_pubkey: Identity,
    /// The loan-to-value tier of the first deposit.
    pub initial_ltv_bps: u16,
    pub bump: u8,
}

impl UserLoan {
    /// Whether a withdrawal cooldown is running.
    pub open spec fn cooldown_pending(self) -> bool {
        self.unstake_requested_at != 0
    }
}

/// A guardian: who it is, what it is called, and what it charges.
#[derive(Clone, Debug, PartialEq, Eq)]
pub struct GuardianInfo {
    pub pubkey: Identity,
    pub name: String,
    pub commission_bps: u16,
}

/// The guardian registry.
#[derive(Clone, Debug, PartialEq, Eq)]
pub struct GuardianList {
    pub guardians: Vec<GuardianInfo>,
    pub count: u8,
    pub bump: u8,
}

impl GuardianList {
    /// Whether `who` is in the registry.
    pub open spec fn lists(self, who: Identity) -> bool {
        exists|i: int| 0 <= i < self.guardians@.len() && (#[trigger] self.guardians@[i]).pubkey == who
    }

    /// No guardian is listed twice, every entry is within the caps, and the
    /// counter agrees with the list.
    pub open spec fn well_formed(self) -> bool {
        &&& self.count == self.guardians@.len()
        &&& forall|i: int, j: int|
            0 <= i < j < self.guardians@.len() ==> (#[trigger] self.guardians@[i]).pubkey != (
            #[trigger] self.guardians@[j]).pubkey
        &&& forall|i: int|
            0 <= i < self.guardians@.len() ==> {
                &&& (#[trigger] self.guardians@[i]).commission_bps <= MAX_GUARDIAN_COMMISSION_BPS
                &&& self.guardians@[i].name@.len() <= MAX_GUARDIAN_NAME_CHARS
            }
    }
}

} // verus!
