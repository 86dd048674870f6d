//! Position accounting and risk rules of a collateralised lending vault.
//!
//! Users lock a yield-bearing collateral asset in the vault and borrow a
//! stable asset against its value. Rewards accrue on the collateral and repay
//! the debt; a position whose debt reaches the liquidation threshold can be
//! closed by anyone; collateral leaves only from a position that owes nothing,
//! after a cooldown.
//!
//! The library holds the rules and nothing else. Every operation works on
//! plain records and answers with the event to publish, which also says what
//! assets have to move; moving them, keeping the records and reading the
//! clock and the price feed is the caller's part.
//!
//! - [`state`]: the records, and the bounds a vault is set up within.
//! - [`fixed_point`]: the value of collateral at an oracle price.
//! - [`oracle`]: oracle readings and their freshness.
//! - [`instructions`]: the operations, each with the exact function of its
//!   inputs that it computes.
//! - [`access`]: who may call what.
//! - [`ledger`]: the vault and its positions as a whole, and the proofs that
//!   the totals match the positions and that only deposits add to a position.
//! - [`solvency`]: the proof that no deposit lends a position into
//!   liquidation.
//!
//! Every function is verified, but for one that is taken on trust: the
//! freshness rule in [`oracle`], which is the price feed library's own.

pub mod access;
pub mod errors;
pub mod events;
pub mod fixed_point;
pub mod instructions;
pub mod ledger;
pub mod oracle;
pub mod solvency;
pub mod state;
