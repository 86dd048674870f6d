//! The vault's operations, one module each. Every operation works on plain
//! records and returns what has to happen outside: the assets to move and the
//! event to publish.

pub mod admin;
pub mod deposit_skr_and_borrow;
pub mod harvest_repay;
pub mod initialize;
pub mod liquidate_loan;
pub mod mint_mock_skr;
pub mod withdraw_collateral;
