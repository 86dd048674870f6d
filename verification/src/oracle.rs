//! Oracle readings and the rule that decides whether one is recent enough to
//! price collateral with.

use crate::errors::VaultError;
use pyth_sdk_solana::{Price, PriceFeed, PriceIdentifier};
use vstd::prelude::*;

verus! {

/// The furthest a reading's publish time may lie from the current time, in
/// seconds.
pub const MAX_PRICE_AGE: u64 = 60;

/// The price that stands in for the oracle on development networks: ten units
/// of the borrowed asset for one of collateral.
pub const DEVNET_PRICE: i64 = 10_000_000;

/// The exponent that goes with [`DEVNET_PRICE`].
pub const DEVNET_EXPO: i32 = -6;

/// One reading of the price feed: the price is `price * 10^expo`, give or
/// take `conf`, as published at `publish_time`.
#[derive(Clone, Copy, Debug, PartialEq, Eq)]
pub struct PriceReading {
    pub price: i64,
    pub conf: u64,
    pub expo: i32,
    pub publish_time: i64,
}

/// Whether a reading published at `publish_time` is within `max_age` seconds
/// of `now`, on either side of it.
pub open spec fn is_fresh(publish_time: i64, now: i64, max_age: u64) -> bool {
    -(max_age as int) <= publish_time - now <= max_age as int
}

/// Asks the price feed for its price as of `now`.
///
/// This is `PriceFeed::get_price_no_older_than` of the Pyth SDK, called on a
/// feed that holds `reading` as its price. The SDK takes the absolute value of
/// `publish_time - current_time` in 64-bit signed arithmetic and hands the
/// price back unless that is greater than `age`. The precondition keeps the
/// difference and its absolute value within 64 bits; the postcondition is
/// that comparison.
#[verifier::external_body]
fn price_no_older_than(reading: &PriceReading, now: i64, age: u64) -> (price: Option<PriceReading>)
    requires
        i64::MIN < reading.publish_time - now <= i64::MAX,
    ensures
        price == if is_fresh(reading.publish_time, now, age) {
            Some(*reading)
        } else {
            None
        },
{
    let price = Price {
        price: reading.price,
        conf: reading.conf,
        expo: reading.expo,
        publish_time: reading.publish_time,
    };
    let feed = PriceFeed::new(PriceIdentifier::new([0u8; 32]), price, price);
    match feed.get_price_no_older_than(now, age) {
        Some(p) => Some(
            PriceReading { price: p.price, conf: p.conf, expo: p.expo, publish_time: p.publish_time },
        ),
        None => None,
    }
}

/// Accepts `reading` if it was published within [`MAX_PRICE_AGE`] seconds of
/// `now`, and rejects it as stale otherwise.
pub fn fresh_price(reading: &PriceReading, now: i64) -> (price: Result<PriceReading, VaultError>)
    ensures
        price == if is_fresh(reading.publish_time, now, MAX_PRICE_AGE) {
            Ok::<PriceReading, VaultError>(*reading)
        } else {
            Err(VaultError::StaleOracle)
        },
{
    // A distance that does not fit in 64 bits is far beyond any age limit.
    let distance: i64 = match reading.publish_time.checked_sub(now) {
        Some(d) => d,
        None => {
            return Err(VaultError::StaleOracle);
        },
    };
    if distance == i64::MIN {
        return Err(VaultError::StaleOracle);
    }
    match price_no_older_than(reading, now, MAX_PRICE_AGE) {
        Some(p) => Ok(p),
        None => Err(VaultError::StaleOracle),
    }
}

/// The reading used where no oracle is deployed: the fixed development price,
/// published just now.
pub fn devnet_price(now: i64) -> (reading: PriceReading)
    ensures
        reading == (PriceReading {
            price: DEVNET_PRICE,
            conf: 0,
            expo: DEVNET_EXPO,
            publish_time: now,
        }),
{
    PriceReading { price: DEVNET_PRICE, conf: 0, expo: DEVNET_EXPO, publish_time: now }
}

} // verus!
