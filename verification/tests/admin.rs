use guardian_vault::errors::VaultError;
use guardian_vault::events::{EmergencyPause, GuardianAdded};
use guardian_vault::instructions::admin::{add_guardian, emergency_pause, is_listed, unpause, update_oracle};
use guardian_vault::state::{GuardianInfo, GuardianList, Identity, VaultState};

fn id(byte: u8) -> Identity {
    Identity { bytes: [byte; 32] }
}

fn vault() -> VaultState {
    VaultState {
        authority: id(1),
        labs_treasury: id(2),
        total_collateral: 11,
        total_debt: 7,
        harvest_fee_bps: 1000,
        base_ltv_bps: 5000,
        skr_holder_bonus_bps: 1000,
        cooldown_period: 3600,
        liquidation_threshold_bps: 8000,
        liquidation_penalty_bps: 500,
        paused: false,
        skr_price_feed: id(3),
        bump: 254,
    }
}

fn empty_list() -> GuardianList {
    GuardianList { guardians: Vec::new(), count: 0, bump: 0 }
}

#[test]
fn emergency_pause_sets_the_breaker_and_reports_the_time() {
    let mut v = vault();
    assert_eq!(emergency_pause(&mut v, 1_700_000_000), EmergencyPause { timestamp: 1_700_000_000 });
    assert_eq!(v, VaultState { paused: true, ..vault() });
    assert_eq!(emergency_pause(&mut v, 5), EmergencyPause { timestamp: 5 });
    assert_eq!(v, VaultState { paused: true, ..vault() });
}

#[test]
fn unpause_clears_the_breaker() {
    let mut v = VaultState { paused: true, ..vault() };
    unpause(&mut v);
    assert_eq!(v, vault());
    unpause(&mut v);
    assert_eq!(v, vault());
}

#[test]
fn update_oracle_changes_the_feed_alone() {
    let mut v = vault();
    update_oracle(&mut v, id(42));
    assert_eq!(v, VaultState { skr_price_feed: id(42), ..vault() });
}

#[test]
fn first_guardian_brings_the_bump() {
    let mut list = empty_list();
    let added = add_guardian(&mut list, id(10), String::from("Alpha"), 700, 251);
    assert_eq!(added, Ok(GuardianAdded { guardian_pubkey: id(10), name: String::from("Alpha") }));
    assert_eq!(
        list,
        GuardianList {
            guardians: vec![GuardianInfo { pubkey: id(10), name: String::from("Alpha"), commission_bps: 700 }],
            count: 1,
            bump: 251,
        }
    );
}

#[test]
fn later_guardians_go_to_the_end_and_leave_the_bump() {
    let mut list = empty_list();
    add_guardian(&mut list, id(10), String::from("Alpha"), 700, 251).unwrap();
    let added = add_guardian(&mut list, id(11), String::from("Beta"), 0, 99);
    assert_eq!(added, Ok(GuardianAdded { guardian_pubkey: id(11), name: String::from("Beta") }));
    assert_eq!(
        list,
        GuardianList {
            guardians: vec![
                GuardianInfo { pubkey: id(10), name: String::from("Alpha"), commission_bps: 700 },
                GuardianInfo { pubkey: id(11), name: String::from("Beta"), commission_bps: 0 },
            ],
            count: 2,
            bump: 251,
        }
    );
    assert!(is_listed(&list, &id(10)));
    assert!(is_listed(&list, &id(11)));
    assert!(!is_listed(&list, &id(12)));
}

#[test]
fn commission_above_seven_percent_is_too_high() {
    let mut list = empty_list();
    assert_eq!(
        add_guardian(&mut list, id(10), String::from("Alpha"), 701, 251),
        Err(VaultError::CommissionTooHigh)
    );
    assert_eq!(list, empty_list());
}

#[test]
fn name_of_more_than_thirty_two_characters_is_too_long() {
    let mut list = empty_list();
    let thirty_three = "a".repeat(33);
    assert_eq!(add_guardian(&mut list, id(10), thirty_three, 700, 251), Err(VaultError::NameTooLong));
    assert_eq!(list, empty_list());
    let thirty_two = "a".repeat(32);
    assert!(add_guardian(&mut list, id(10), thirty_two, 700, 251).is_ok());
    assert!(add_guardian(&mut list, id(11), String::new(), 700, 251).is_ok());
}

#[test]
fn name_length_counts_characters() {
    let mut list = empty_list();
    // Thirty-two characters of two bytes each.
    let name = "é".repeat(32);
    assert_eq!(name.len(), 64);
    assert!(add_guardian(&mut list, id(10), name, 700, 251).is_ok());
    assert_eq!(
        add_guardian(&mut list, id(11), "é".repeat(33), 700, 251),
        Err(VaultError::NameTooLong)
    );
}

#[test]
fn guardian_cannot_be_added_twice() {
    let mut list = empty_list();
    add_guardian(&mut list, id(10), String::from("Alpha"), 700, 251).unwrap();
    add_guardian(&mut list, id(11), String::from("Beta"), 100, 251).unwrap();
    let before = list.clone();
    assert_eq!(
        add_guardian(&mut list, id(10), String::from("Gamma"), 5, 1),
        Err(VaultError::GuardianAlreadyWhitelisted)
    );
    assert_eq!(
        add_guardian(&mut list, id(11), String::from("Beta"), 100, 251),
        Err(VaultError::GuardianAlreadyWhitelisted)
    );
    assert_eq!(list, before);
}

#[test]
fn identities_that_differ_in_one_byte_are_two_guardians() {
    let mut list = empty_list();
    let mut other = id(10);
    other.bytes[31] = 11;
    add_guardian(&mut list, id(10), String::from("Alpha"), 700, 251).unwrap();
    assert!(add_guardian(&mut list, other, String::from("Alpha"), 700, 251).is_ok());
    assert_eq!(list.count, 2);
}

#[test]
fn guardian_checks_run_in_order() {
    let mut list = empty_list();
    add_guardian(&mut list, id(10), String::from("Alpha"), 700, 251).unwrap();
    // Commission before name, name before the duplicate.
    assert_eq!(add_guardian(&mut list, id(10), "a".repeat(40), 701, 1), Err(VaultError::CommissionTooHigh));
    assert_eq!(add_guardian(&mut list, id(10), "a".repeat(40), 700, 1), Err(VaultError::NameTooLong));
}

#[test]
fn registry_stops_at_two_hundred_and_fifty_five() {
    let mut list = empty_list();
    for i in 0..255u32 {
        let mut who = id(0);
        who.bytes[0] = (i % 256) as u8;
        who.bytes[1] = 1;
        assert!(add_guardian(&mut list, who, format!("g{}", i), 0, 1).is_ok());
    }
    assert_eq!(list.count, 255);
    assert_eq!(list.guardians.len(), 255);
    let before = list.clone();
    assert_eq!(add_guardian(&mut list, id(200), String::from("late"), 0, 1), Err(VaultError::MathOverflow));
    assert_eq!(list, before);
}
