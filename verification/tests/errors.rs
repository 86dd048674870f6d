use guardian_vault::errors::VaultError;

#[test]
fn every_error_says_what_went_wrong() {
    assert_eq!(VaultError::Paused.message(), "Vault is paused");
    assert_eq!(VaultError::InvalidPriceFeed.message(), "Invalid price feed");
    assert_eq!(VaultError::StaleOracle.message(), "Oracle price is stale");
    assert_eq!(VaultError::MathOverflow.message(), "Math overflow");
    assert_eq!(VaultError::GenericError.message(), "Detailed error here");
    assert_eq!(VaultError::DebtNotZero.message(), "Debt must be zero to withdraw");
    assert_eq!(VaultError::CooldownNotMet.message(), "Cooldown period not yet met");
    assert_eq!(VaultError::LoanHealthy.message(), "Loan is healthy, cannot liquidate");
    assert_eq!(VaultError::CommissionTooHigh.message(), "Commission too high");
    assert_eq!(VaultError::GuardianAlreadyWhitelisted.message(), "Guardian already whitelisted");
    assert_eq!(VaultError::Unauthorized.message(), "Unauthorized: caller is not the loan owner");
    assert_eq!(
        VaultError::InvalidMintAuthority.message(),
        "Invalid mint authority: vault must be mint authority"
    );
    assert_eq!(VaultError::LTVTooHigh.message(), "LTV too high: maximum allowed is 80%");
    assert_eq!(
        VaultError::InvalidThreshold.message(),
        "Invalid threshold: liquidation threshold must be greater than base LTV"
    );
    assert_eq!(VaultError::NameTooLong.message(), "Guardian name too long: maximum 32 characters");
    assert_eq!(VaultError::CooldownAlreadyStarted.message(), "Cooldown already started");
    assert_eq!(VaultError::DevnetOnly.message(), "This instruction is only available on devnet");
}

#[test]
fn errors_compare_by_kind() {
    assert_eq!(VaultError::Paused, VaultError::Paused);
    assert_ne!(VaultError::Paused, VaultError::StaleOracle);
    assert_ne!(VaultError::LTVTooHigh, VaultError::InvalidThreshold);
}
