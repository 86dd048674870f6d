//! The ways in which a vault operation can be rejected.

use vstd::prelude::*;

verus! {

/// Why an operation was rejected. A rejected operation leaves every record as
/// it found it.
#[derive(Clone, Copy, Debug, PartialEq, Eq, Structural)]
pub enum VaultError {
    /// The vault's circuit breaker is on.
    Paused,
    /// The oracle reading carries no usable price.
    InvalidPriceFeed,
    /// The oracle reading is too far from the current time.
    StaleOracle,
    /// A checked arithmetic step left its integer type.
    MathOverflow,
    /// A vault parameter that has no more specific rejection.
    GenericError,
    /// Collateral can only leave a position that owes nothing.
    DebtNotZero,
    /// The withdrawal cooldown has not run out yet.
    CooldownNotMet,
    /// The position is solvent and cannot be liquidated.
    LoanHealthy,
    /// A fee, penalty or commission is above its cap.
    CommissionTooHigh,
    /// The guardian is already in the registry.
    GuardianAlreadyWhitelisted,
    /// The caller does not own the position.
    Unauthorized,
    /// The vault is not the mint authority of the borrowed asset.
    InvalidMintAuthority,
    /// A loan-to-value parameter is above its cap.
    LTVTooHigh,
    /// The liquidation threshold is out of range.
    InvalidThreshold,
    /// A guardian's display name is too long.
    NameTooLong,
    /// A cooldown is already running.
    CooldownAlreadyStarted,
    /// The operation exists on development networks only.
    DevnetOnly,
}

impl VaultError {
    /// What [`VaultError::message`] says of each error.
    pub open spec fn message_text(self) -> Seq<char> {
        match self {
            VaultError::Paused => "Vault is paused"@,
            VaultError::InvalidPriceFeed => "Invalid price feed"@,
            VaultError::StaleOracle => "Oracle price is stale"@,
            VaultError::MathOverflow => "Math overflow"@,
            VaultError::GenericError => "Detailed error here"@,
            VaultError::DebtNotZero => "Debt must be zero to withdraw"@,
            VaultError::CooldownNotMet => "Cooldown period not yet met"@,
            VaultError::LoanHealthy => "Loan is healthy, cannot liquidate"@,
            VaultError::CommissionTooHigh => "Commission too high"@,
            VaultError::GuardianAlreadyWhitelisted => "Guardian already whitelisted"@,
            VaultError::Unauthorized => "Unauthorized: caller is not the loan owner"@,
            VaultError::InvalidMintAuthority => "Invalid mint authority: vault must be mint authority"@,
            VaultError::LTVTooHigh => "LTV too high: maximum allowed is 80%"@,
            VaultError::InvalidThreshold => "Invalid threshold: liquidation threshold must be greater than base LTV"@,
            VaultError::NameTooLong => "Guardian name too long: maximum 32 characters"@,
            VaultError::CooldownAlreadyStarted => "Cooldown already started"@,
            VaultError::DevnetOnly => "This instruction is only available on devnet"@,
        }
    }

    /// The error in words, for whoever reads it.
    pub fn message(&self) -> (text: &'static str)
        ensures
            text@ == self.message_text(),
    {
        match self {
            VaultError::Paused => "Vault is paused",
            VaultError::InvalidPriceFeed => "Invalid price feed",
            VaultError::StaleOracle => "Oracle price is stale",
            VaultError::MathOverflow => "Math overflow",
            VaultError::GenericError => "Detailed error here",
            VaultError::DebtNotZero => "Debt must be zero to withdraw",
            VaultError::CooldownNotMet => "Cooldown period not yet met",
            VaultError::LoanHealthy => "Loan is healthy, cannot liquidate",
            VaultError::CommissionTooHigh => "Commission too high",
            VaultError::GuardianAlreadyWhitelisted => "Guardian already whitelisted",
            VaultError::Unauthorized => "Unauthorized: caller is not the loan owner",
            VaultError::InvalidMintAuthority => "Invalid mint authority: vault must be mint authority",
            VaultError::LTVTooHigh => "LTV too high: maximum allowed is 80%",
            VaultError::InvalidThreshold => "Invalid threshold: liquidation threshold must be greater than base LTV",
            VaultError::NameTooLong => "Guardian name too long: maximum 32 characters",
            VaultError::CooldownAlreadyStarted => "Cooldown already started",
            VaultError::DevnetOnly => "This instruction is only available on devnet",
        }
    }
}

} // verus!
