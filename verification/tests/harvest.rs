use guardian_vault::errors::VaultError;
use guardian_vault::events::RewardHarvested;
use guardian_vault::instructions::harvest_repay::{handler, REWARD_DIVISOR, SIMULATED_PRICE};
use guardian_vault::state::{Identity, UserLoan, VaultState};

const YEAR: i64 = 31_536_000;

fn id(byte: u8) -> Identity {
    Identity { bytes: [byte; 32] }
}

fn vault(total_collateral: u64, total_debt: u64) -> VaultState {
    VaultState {
        authority: id(1),
        labs_treasury: id(2),
        total_collateral,
        total_debt,
        harvest_fee_bps: 1000,
        base_ltv_bps: 5000,
        skr_holder_bonus_bps: 1000,
        cooldown_period: 3600,
        liquidation_threshold_bps: 8000,
        liquidation_penalty_bps: 500,
        paused: false,
        skr_price_feed: id(3),
        bump: 254,
    }
}

fn loan(collateral_amount: u64, debt_amount: u64, last_harvest: i64) -> UserLoan {
    UserLoan {
        owner: id(9),
        collateral_amount,
        debt_amount,
        created_at: 1,
        last_harvest,
        unstake_requested_at: 0,
        guardian_pubkey: id(0),
        initial_ltv_bps: 5000,
        bump: 253,
    }
}

#[test]
fn reward_constants_stand_for_seven_percent_a_year() {
    assert_eq!(REWARD_DIVISOR, 100 * YEAR as u128);
    assert_eq!(SIMULATED_PRICE, 10);
}

#[test]
fn one_year_on_a_thousand_units_pays_seventy() {
    let mut l = loan(1_000_000_000, 5_000_000_000, 500);
    let mut v = vault(1_000_000_000, 5_000_000_000);
    let harvested = handler(&mut l, &mut v, 500 + YEAR);
    assert_eq!(
        harvested,
        Ok(Some(RewardHarvested {
            user: id(9),
            rewards_earned: 70_000_000,
            fee_taken: 7_000_000,
            debt_reduced: 630_000_000,
        }))
    );
    assert_eq!(l, UserLoan { debt_amount: 4_370_000_000, last_harvest: 500 + YEAR, ..loan(1_000_000_000, 5_000_000_000, 500) });
    assert_eq!(v, vault(1_000_000_000, 4_370_000_000));
}

#[test]
fn harvest_again_at_the_same_time_is_idle() {
    let mut l = loan(1_000_000_000, 5_000_000_000, 500);
    let mut v = vault(1_000_000_000, 5_000_000_000);
    assert!(handler(&mut l, &mut v, 500 + YEAR).unwrap().is_some());
    let (l1, v1) = (l, v);
    assert_eq!(handler(&mut l, &mut v, 500 + YEAR), Ok(None));
    assert_eq!(l, l1);
    assert_eq!(v, v1);
}

#[test]
fn harvest_before_the_last_harvest_is_idle() {
    let mut l = loan(1_000_000_000, 5_000_000_000, 500);
    let mut v = vault(1_000_000_000, 5_000_000_000);
    assert_eq!(handler(&mut l, &mut v, 500), Ok(None));
    assert_eq!(handler(&mut l, &mut v, 499), Ok(None));
    assert_eq!(handler(&mut l, &mut v, i64::MIN), Ok(None));
    assert_eq!(l, loan(1_000_000_000, 5_000_000_000, 500));
    assert_eq!(v, vault(1_000_000_000, 5_000_000_000));
}

#[test]
fn interval_too_short_to_earn_still_moves_the_clock() {
    // One unit needs 450_514_286 seconds to earn a millionth; 1000 units need a second.
    let mut l = loan(1_000_000, 77, 500);
    let mut v = vault(1_000_000, 77);
    assert_eq!(handler(&mut l, &mut v, 501), Ok(None));
    assert_eq!(l, loan(1_000_000, 77, 501));
    assert_eq!(v, vault(1_000_000, 77));
}

#[test]
fn rewards_are_rounded_down() {
    // 450_514_285 * 7 = 3_153_599_995 < divisor; one more unit makes it.
    let mut l = loan(450_514_285, 1_000, 0);
    let mut v = vault(450_514_285, 1_000);
    assert_eq!(handler(&mut l, &mut v, 1), Ok(None));
    let mut l = loan(450_514_286, 1_000, 0);
    let mut v = vault(450_514_286, 1_000);
    assert_eq!(
        handler(&mut l, &mut v, 1),
        Ok(Some(RewardHarvested { user: id(9), rewards_earned: 1, fee_taken: 0, debt_reduced: 10 }))
    );
    assert_eq!(l.debt_amount, 990);
    assert_eq!(v.total_debt, 990);
}

#[test]
fn fee_is_rounded_down() {
    // 19 units of rewards at ten percent: the fee is 1.9, which is 1.
    let collateral = 19 * 450_514_286;
    let mut l = loan(collateral, 1_000, 0);
    let mut v = vault(collateral, 1_000);
    assert_eq!(
        handler(&mut l, &mut v, 1),
        Ok(Some(RewardHarvested { user: id(9), rewards_earned: 19, fee_taken: 1, debt_reduced: 180 }))
    );
}

#[test]
fn debt_reduction_stops_at_zero() {
    let mut l = loan(1_000_000_000, 100_000_000, 0);
    let mut v = vault(1_000_000_000, 900_000_000);
    let harvested = handler(&mut l, &mut v, YEAR);
    assert_eq!(
        harvested,
        Ok(Some(RewardHarvested {
            user: id(9),
            rewards_earned: 70_000_000,
            fee_taken: 7_000_000,
            debt_reduced: 100_000_000,
        }))
    );
    assert_eq!(l.debt_amount, 0);
    assert_eq!(l.last_harvest, YEAR);
    assert_eq!(v.total_debt, 800_000_000);
}

#[test]
fn position_without_debt_still_pays_the_fee() {
    let mut l = loan(1_000_000_000, 0, 0);
    let mut v = vault(1_000_000_000, 0);
    assert_eq!(
        handler(&mut l, &mut v, YEAR),
        Ok(Some(RewardHarvested {
            user: id(9),
            rewards_earned: 70_000_000,
            fee_taken: 7_000_000,
            debt_reduced: 0,
        }))
    );
    assert_eq!(l, loan(1_000_000_000, 0, YEAR));
    assert_eq!(v, vault(1_000_000_000, 0));
}

#[test]
fn total_debt_stops_at_zero() {
    // The vault's total is lower than what the position repays.
    let mut l = loan(1_000_000_000, 700_000_000, 0);
    let mut v = vault(1_000_000_000, 5);
    let harvested = handler(&mut l, &mut v, YEAR).unwrap().unwrap();
    assert_eq!(harvested.debt_reduced, 630_000_000);
    assert_eq!(l.debt_amount, 70_000_000);
    assert_eq!(v.total_debt, 0);
}

#[test]
fn vault_without_fee_pays_all_rewards_against_the_debt() {
    let mut l = loan(1_000_000_000, 5_000_000_000, 0);
    let mut v = VaultState { harvest_fee_bps: 0, ..vault(1_000_000_000, 5_000_000_000) };
    assert_eq!(
        handler(&mut l, &mut v, YEAR),
        Ok(Some(RewardHarvested {
            user: id(9),
            rewards_earned: 70_000_000,
            fee_taken: 0,
            debt_reduced: 700_000_000,
        }))
    );
}

#[test]
fn paused_vault_harvests_nothing() {
    let mut l = loan(1_000_000_000, 5_000_000_000, 0);
    let mut v = VaultState { paused: true, ..vault(1_000_000_000, 5_000_000_000) };
    assert_eq!(handler(&mut l, &mut v, YEAR), Err(VaultError::Paused));
    assert_eq!(l, loan(1_000_000_000, 5_000_000_000, 0));
    assert_eq!(v, VaultState { paused: true, ..vault(1_000_000_000, 5_000_000_000) });
    // Even where no time has passed.
    assert_eq!(handler(&mut l, &mut v, 0), Err(VaultError::Paused));
}

#[test]
fn product_beyond_128_bits_overflows() {
    let mut l = loan(u64::MAX, 5, i64::MIN);
    let mut v = vault(u64::MAX, 5);
    assert_eq!(handler(&mut l, &mut v, i64::MAX), Err(VaultError::MathOverflow));
    assert_eq!(l, loan(u64::MAX, 5, i64::MIN));
    assert_eq!(v, vault(u64::MAX, 5));
}

#[test]
fn rewards_beyond_64_bits_overflow() {
    // 2^64 * 7 * 2^62 / 3_153_600_000 is far beyond 64 bits but the product fits in 128.
    let mut l = loan(u64::MAX, 5, 0);
    let mut v = vault(u64::MAX, 5);
    assert_eq!(handler(&mut l, &mut v, 1 << 60), Err(VaultError::MathOverflow));
    assert_eq!(l, loan(u64::MAX, 5, 0));
    assert_eq!(v, vault(u64::MAX, 5));
}

#[test]
fn elapsed_time_is_exact_beyond_63_bits() {
    // From the earliest to the latest time is 2^64 - 1 seconds.
    let mut l = loan(1, 1_000_000_000_000, i64::MIN);
    let mut v = vault(1, 1_000_000_000_000);
    let harvested = handler(&mut l, &mut v, i64::MAX).unwrap().unwrap();
    // 7 * (2^64 - 1) / 3_153_600_000
    assert_eq!(harvested.rewards_earned, 40_945_969_214);
    assert_eq!(harvested.fee_taken, 4_094_596_921);
    assert_eq!(harvested.debt_reduced, 368_513_722_930);
    assert_eq!(l.last_harvest, i64::MAX);
}

#[test]
fn fee_product_beyond_64_bits_overflows() {
    // Rewards of 2^62 times a fee of 1000 basis points do not fit in 64 bits.
    let collateral = 1u64 << 62;
    let mut l = loan(collateral, 5, 0);
    let mut v = vault(collateral, 5);
    // rewards = 2^62 * 7 * 450_514_286 / 3_153_600_000, a little over 2^62
    assert_eq!(handler(&mut l, &mut v, 450_514_286), Err(VaultError::MathOverflow));
    assert_eq!(l, loan(collateral, 5, 0));
    assert_eq!(v, vault(collateral, 5));
}

#[test]
fn fee_above_the_rewards_overflows() {
    let mut l = loan(1_000_000_000, 5_000_000_000, 0);
    let mut v = VaultState { harvest_fee_bps: 10_001, ..vault(1_000_000_000, 5_000_000_000) };
    assert_eq!(handler(&mut l, &mut v, YEAR), Err(VaultError::MathOverflow));
    assert_eq!(l, loan(1_000_000_000, 5_000_000_000, 0));
    let mut v = VaultState { harvest_fee_bps: 10_000, ..vault(1_000_000_000, 5_000_000_000) };
    assert_eq!(
        handler(&mut l, &mut v, YEAR),
        Ok(Some(RewardHarvested {
            user: id(9),
            rewards_earned: 70_000_000,
            fee_taken: 70_000_000,
            debt_reduced: 0,
        }))
    );
}

#[test]
fn debt_reduction_beyond_64_bits_overflows() {
    // Net rewards above a tenth of 2^64.
    let collateral = 1u64 << 61;
    let mut l = loan(collateral, 5, 0);
    let mut v = VaultState { harvest_fee_bps: 0, ..vault(collateral, 5) };
    assert_eq!(handler(&mut l, &mut v, 450_514_286), Err(VaultError::MathOverflow));
    assert_eq!(l, loan(collateral, 5, 0));
}

#[test]
fn harvest_never_adds_collateral_or_debt() {
    let times = [0i64, 1, 1_000, YEAR, 10 * YEAR, i64::MAX];
    let debts = [0u64, 1, 1_000_000, 5_000_000_000, u64::MAX];
    for now in times {
        for debt in debts {
            let mut l = loan(1_000_000_000, debt, 0);
            let mut v = vault(1_000_000_000, debt);
            let _ = handler(&mut l, &mut v, now);
            assert!(l.debt_amount <= debt);
            assert_eq!(l.collateral_amount, 1_000_000_000);
            assert!(v.total_debt <= debt);
            assert_eq!(v.total_collateral, 1_000_000_000);
        }
    }
}
