use guardian_vault::errors::VaultError;
use guardian_vault::oracle::{devnet_price, fresh_price, PriceReading, MAX_PRICE_AGE};

fn reading_at(publish_time: i64) -> PriceReading {
    PriceReading { price: 10_000_000, conf: 1_000, expo: -6, publish_time }
}

#[test]
fn reading_within_sixty_seconds_is_fresh() {
    assert_eq!(MAX_PRICE_AGE, 60);
    assert_eq!(fresh_price(&reading_at(1_000), 1_000), Ok(reading_at(1_000)));
    assert_eq!(fresh_price(&reading_at(1_000), 1_059), Ok(reading_at(1_000)));
    assert_eq!(fresh_price(&reading_at(1_000), 1_060), Ok(reading_at(1_000)));
}

#[test]
fn reading_older_than_sixty_seconds_is_stale() {
    assert_eq!(fresh_price(&reading_at(1_000), 1_061), Err(VaultError::StaleOracle));
    assert_eq!(fresh_price(&reading_at(0), 1_000_000), Err(VaultError::StaleOracle));
}

#[test]
fn reading_from_the_future_counts_by_its_distance() {
    assert_eq!(fresh_price(&reading_at(1_060), 1_000), Ok(reading_at(1_060)));
    assert_eq!(fresh_price(&reading_at(1_061), 1_000), Err(VaultError::StaleOracle));
}

#[test]
fn fresh_reading_comes_back_whole() {
    let reading = PriceReading { price: -3, conf: 77, expo: 12, publish_time: -5 };
    assert_eq!(fresh_price(&reading, -5), Ok(reading));
}

#[test]
fn distances_beyond_64_bits_are_stale() {
    assert_eq!(fresh_price(&reading_at(i64::MIN), i64::MAX), Err(VaultError::StaleOracle));
    assert_eq!(fresh_price(&reading_at(i64::MAX), i64::MIN), Err(VaultError::StaleOracle));
    assert_eq!(fresh_price(&reading_at(i64::MIN), 0), Err(VaultError::StaleOracle));
    assert_eq!(fresh_price(&reading_at(0), i64::MIN), Err(VaultError::StaleOracle));
    assert_eq!(fresh_price(&reading_at(i64::MIN), 1), Err(VaultError::StaleOracle));
    assert_eq!(fresh_price(&reading_at(-1), i64::MAX), Err(VaultError::StaleOracle));
    assert_eq!(fresh_price(&reading_at(i64::MAX), i64::MAX - 60), Ok(reading_at(i64::MAX)));
    assert_eq!(fresh_price(&reading_at(i64::MIN), i64::MIN + 61), Err(VaultError::StaleOracle));
}

#[test]
fn devnet_price_is_ten_dollars_published_now() {
    let reading = devnet_price(1_234);
    assert_eq!(reading, PriceReading { price: 10_000_000, conf: 0, expo: -6, publish_time: 1_234 });
    assert_eq!(fresh_price(&reading, 1_234), Ok(reading));
}
