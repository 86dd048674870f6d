//! The vault and all its positions taken together, and what holds of them
//! whatever is done.
//!
//! Nothing here runs: a [`Ledger`] is the mathematical picture of the records
//! that the operations work on, and a [`Step`] is one call of an operation.
//! What a step does to the ledger is written with the same functions that the
//! operations' own contracts are written with, so what is proved of every
//! sequence of steps is proved of every sequence of calls.

use crate::instructions::deposit_skr_and_borrow;
use crate::instructions::harvest_repay;
use crate::instructions::liquidate_loan;
use crate::instructions::withdraw_collateral;
use crate::errors::VaultError;
use crate::oracle::PriceReading;
use crate::state::{Identity, UserLoan, VaultState};
use vstd::prelude::*;

verus! {

/// The vault and the places where positions are kept. A place holds a
/// position from the time it is opened until it is withdrawn or liquidated,
/// and nothing after that.
pub struct Ledger {
    pub vault: VaultState,
    pub positions: Seq<Option<UserLoan>>,
}

/// One call of an operation. `place` says which position it is made on.
pub enum Step {
    Open { user: Identity, now: i64, bump: u8 },
    Deposit { place: int, amount: u64, balance_before: u64, price: PriceReading, now: i64 },
    Harvest { place: int, now: i64 },
    Withdraw { place: int, now: i64 },
    Liquidate { place: int, liquidator: Identity, price: PriceReading, now: i64 },
    Pause,
    Unpause,
    UpdateOracle { price_feed: Identity },
}

/// The collateral that the position in a place holds: nothing where there is
/// no position.
pub open spec fn collateral_in(place: Option<UserLoan>) -> int {
    match place {
        Some(loan) => loan.collateral_amount as int,
        None => 0,
    }
}

/// The debt that the position in a place owes: nothing where there is no
/// position.
pub open spec fn debt_in(place: Option<UserLoan>) -> int {
    match place {
        Some(loan) => loan.debt_amount as int,
        None => 0,
    }
}

/// The collateral of all positions together.
pub open spec fn collateral_held(positions: Seq<Option<UserLoan>>) -> int
    decreases positions.len(),
{
    if positions.len() == 0 {
        0
    } else {
        collateral_held(positions.drop_last()) + collateral_in(positions.last())
    }
}

/// The debt of all positions together.
pub open spec fn debt_owed(positions: Seq<Option<UserLoan>>) -> int
    decreases positions.len(),
{
    if positions.len() == 0 {
        0
    } else {
        debt_owed(positions.drop_last()) + debt_in(positions.last())
    }
}

impl Ledger {
    /// A vault that has just been set up: no positions yet.
    pub open spec fn opened(vault: VaultState) -> Ledger {
        Ledger { vault, positions: Seq::empty() }
    }

    /// Whether `place` holds a position.
    pub open spec fn live(self, place: int) -> bool {
        0 <= place < self.positions.len() && self.positions[place] is Some
    }

    /// The position in `place`, which must hold one.
    pub open spec fn at(self, place: int) -> UserLoan
        recommends
            self.live(place),
    {
        self.positions[place]->Some_0
    }

    /// Whether `user` has a position.
    pub open spec fn has_position(self, user: Identity) -> bool {
        exists|place: int| self.live(place) && #[trigger] self.at(place).owner == user
    }

    /// The vault's totals are the sums over the positions.
    pub open spec fn balanced(self) -> bool {
        &&& self.vault.total_collateral == collateral_held(self.positions)
        &&& self.vault.total_debt == debt_owed(self.positions)
    }

    /// No user has two positions.
    pub open spec fn one_position_each(self) -> bool {
        forall|a: int, b: int|
            self.live(a) && self.live(b) && #[trigger] self.at(a).owner == #[trigger] self.at(
                b,
            ).owner ==> a == b
    }

    /// The ledger with `loan` in `place` and `vault` for its vault.
    pub open spec fn with(self, place: int, loan: UserLoan, vault: VaultState) -> Ledger {
        Ledger { vault, positions: self.positions.update(place, Some(loan)) }
    }

    /// The ledger with `place` emptied and `vault` for its vault.
    pub open spec fn without(self, place: int, vault: VaultState) -> Ledger {
        Ledger { vault, positions: self.positions.update(place, None) }
    }

    /// The ledger after `step`. A step that the operation rejects, or that is
    /// made where there is no position, or that would open a second position
    /// for a user, leaves the ledger as it is.
    pub open spec fn apply(self, step: Step) -> Ledger {
        match step {
            Step::Open { user, now, bump } => {
                if self.has_position(user) {
                    self
                } else {
                    Ledger {
                        positions: self.positions.push(
                            Some(deposit_skr_and_borrow::opened_loan(user, now, bump)),
                        ),
                        ..self
                    }
                }
            },
            Step::Deposit { place, amount, balance_before, price, now } => {
                if self.live(place) && deposit_skr_and_borrow::rejection(
                    self.at(place),
                    self.vault,
                    amount,
                    balance_before,
                    price,
                    now,
                ) is None {
                    self.with(
                        place,
                        deposit_skr_and_borrow::loan_after(
                            self.at(place),
                            self.vault,
                            amount,
                            balance_before,
                            price,
                            now,
                        ),
                        deposit_skr_and_borrow::vault_after(
                            self.vault,
                            amount,
                            balance_before,
                            price,
                        ),
                    )
                } else {
                    self
                }
            },
            Step::Harvest { place, now } => {
                if self.live(place) {
                    self.with(
                        place,
                        harvest_repay::loan_after(self.at(place), self.vault, now),
                        harvest_repay::vault_after(self.at(place), self.vault, now),
                    )
                } else {
                    self
                }
            },
            Step::Withdraw { place, now } => {
                if self.live(place) && withdraw_collateral::rejection(
                    self.at(place),
                    self.vault,
                    now,
                ) is None {
                    if self.at(place).cooldown_pending() {
                        self.without(
                            place,
                            withdraw_collateral::vault_after(self.at(place), self.vault),
                        )
                    } else {
                        self.with(
                            place,
                            withdraw_collateral::cooling_loan(self.at(place), now),
                            self.vault,
                        )
                    }
                } else {
                    self
                }
            },
            Step::Liquidate { place, liquidator, price, now } => {
                if self.live(place) && liquidate_loan::rejection(
                    self.at(place),
                    self.vault,
                    price,
                    now,
                ) is None {
                    self.without(place, liquidate_loan::vault_after(self.at(place), self.vault))
                } else {
                    self
                }
            },
            Step::Pause => Ledger { vault: VaultState { paused: true, ..self.vault }, ..self },
            Step::Unpause => Ledger { vault: VaultState { paused: false, ..self.vault }, ..self },
            Step::UpdateOracle { price_feed } => Ledger {
                vault: VaultState { skr_price_feed: price_feed, ..self.vault },
                ..self
            },
        }
    }

    /// The ledger after `steps`, taken in order.
    pub open spec fn run(self, steps: Seq<Step>) -> Ledger
        decreases steps.len(),
    {
        if steps.len() == 0 {
            self
        } else {
            self.run(steps.drop_last()).apply(steps.last())
        }
    }
}

/// Putting something else in a place changes the held collateral by the
/// difference.
pub proof fn lemma_collateral_held_update(
    positions: Seq<Option<UserLoan>>,
    place: int,
    new: Option<UserLoan>,
)
    requires
        0 <= place < positions.len(),
    ensures
        collateral_held(positions.update(place, new)) == collateral_held(positions)
            - collateral_in(positions[place]) + collateral_in(new),
    decreases positions.len(),
{
    let updated = positions.update(place, new);
    if place == positions.len() - 1 {
        assert(updated.drop_last() =~= positions.drop_last());
    } else {
        lemma_collateral_held_update(positions.drop_last(), place, new);
        assert(updated.drop_last() =~= positions.drop_last().update(place, new));
    }
}

/// Putting something else in a place changes the owed debt by the difference.
pub proof fn lemma_debt_owed_update(
    positions: Seq<Option<UserLoan>>,
    place: int,
    new: Option<UserLoan>,
)
    requires
        0 <= place < positions.len(),
    ensures
        debt_owed(positions.update(place, new)) == debt_owed(positions) - debt_in(positions[place])
            + debt_in(new),
    decreases positions.len(),
{
    let updated = positions.update(place, new);
    if place == positions.len() - 1 {
        assert(updated.drop_last() =~= positions.drop_last());
    } else {
        lemma_debt_owed_update(positions.drop_last(), place, new);
        assert(updated.drop_last() =~= positions.drop_last().update(place, new));
    }
}

/// No place holds more collateral, or owes more debt, than all together.
pub proof fn lemma_part_within_whole(positions: Seq<Option<UserLoan>>, place: int)
    requires
        0 <= place < positions.len(),
    ensures
        0 <= collateral_in(positions[place]) <= collateral_held(positions),
        0 <= debt_in(positions[place]) <= debt_owed(positions),
    decreases positions.len(),
{
    lemma_sums_not_negative(positions.drop_last());
    if place < positions.len() - 1 {
        lemma_part_within_whole(positions.drop_last(), place);
    }
}

/// The sums over the positions are not negative.
pub proof fn lemma_sums_not_negative(positions: Seq<Option<UserLoan>>)
    ensures
        0 <= collateral_held(positions),
        0 <= debt_owed(positions),
    decreases positions.len(),
{
    if positions.len() > 0 {
        lemma_sums_not_negative(positions.drop_last());
    }
}

/// The vault's totals stay the sums over the positions through every step.
pub proof fn lemma_step_keeps_balance(ledger: Ledger, step: Step)
    requires
        ledger.balanced(),
    ensures
        ledger.apply(step).balanced(),
{
    let after = ledger.apply(step);
    match step {
        Step::Open { user, now, bump } => {
            if !ledger.has_position(user) {
                assert(after.positions.drop_last() =~= ledger.positions);
            }
        },
        Step::Deposit { place, amount, balance_before, price, now } => {
            if ledger.live(place) && deposit_skr_and_borrow::rejection(
                ledger.at(place),
                ledger.vault,
                amount,
                balance_before,
                price,
                now,
            ) is None {
                deposit_skr_and_borrow::lemma_borrow_not_negative(
                    ledger.vault,
                    amount,
                    balance_before,
                    price,
                );
                lemma_collateral_held_update(ledger.positions, place, after.positions[place]);
                lemma_debt_owed_update(ledger.positions, place, after.positions[place]);
            }
        },
        Step::Harvest { place, now } => {
            if ledger.live(place) {
                lemma_part_within_whole(ledger.positions, place);
                lemma_collateral_held_update(ledger.positions, place, after.positions[place]);
                lemma_debt_owed_update(ledger.positions, place, after.positions[place]);
            }
        },
        Step::Withdraw { place, now } => {
            if ledger.live(place) {
                lemma_collateral_held_update(ledger.positions, place, after.positions[place]);
                lemma_debt_owed_update(ledger.positions, place, after.positions[place]);
            }
        },
        Step::Liquidate { place, liquidator, price, now } => {
            if ledger.live(place) {
                lemma_collateral_held_update(ledger.positions, place, after.positions[place]);
                lemma_debt_owed_update(ledger.positions, place, after.positions[place]);
            }
        },
        Step::Pause => {},
        Step::Unpause => {},
        Step::UpdateOracle { price_feed } => {},
    }
}

/// In every state that a vault can reach from its set-up, by any steps in any
/// order, the vault's total collateral is the sum of its positions'
/// collateral and its total debt the sum of their debt.
pub proof fn lemma_totals_match_positions(vault: VaultState, steps: Seq<Step>)
    requires
        vault.total_collateral == 0,
        vault.total_debt == 0,
    ensures
        Ledger::opened(vault).run(steps).balanced(),
    decreases steps.len(),
{
    if steps.len() > 0 {
        lemma_totals_match_positions(vault, steps.drop_last());
        lemma_step_keeps_balance(Ledger::opened(vault).run(steps.drop_last()), steps.last());
    }
}

/// A position's collateral and debt grow by deposits into it and by nothing
/// else. Through any other step, a position that was there before holds and
/// owes no more than it did, and one that was not starts with nothing.
pub proof fn lemma_only_deposits_add(ledger: Ledger, step: Step, place: int)
    requires
        ledger.apply(step).live(place),
        !(step matches Step::Deposit { place: target, .. } && target == place),
    ensures
        ledger.live(place) ==> {
            &&& ledger.apply(step).at(place).collateral_amount <= ledger.at(
                place,
            ).collateral_amount
            &&& ledger.apply(step).at(place).debt_amount <= ledger.at(place).debt_amount
        },
        !ledger.live(place) ==> {
            &&& ledger.apply(step).at(place).collateral_amount == 0
            &&& ledger.apply(step).at(place).debt_amount == 0
        },
{
}

/// How a withdrawal proceeds, call by call, while the vault is running.
///
/// While the position owes anything the call is rejected and no cooldown
/// starts. The first call on a position that owes nothing records the time
/// and moves nothing else. A call before the cooldown has run is rejected
/// and changes nothing. A call after that, in a ledger whose totals match its
/// positions, takes the collateral off the vault's total and leaves the place
/// empty.
pub proof fn lemma_withdrawal_sequence(ledger: Ledger, place: int, now: i64)
    requires
        ledger.live(place),
        !ledger.vault.paused,
    ensures
        ledger.at(place).debt_amount > 0 ==> {
            &&& withdraw_collateral::rejection(ledger.at(place), ledger.vault, now) == Some(
                VaultError::DebtNotZero,
            )
            &&& ledger.apply(Step::Withdraw { place, now }) == ledger
        },
        ledger.at(place).debt_amount == 0 && !ledger.at(place).cooldown_pending() ==> {
            &&& ledger.apply(Step::Withdraw { place, now }).vault == ledger.vault
            &&& ledger.apply(Step::Withdraw { place, now }).live(place)
            &&& ledger.apply(Step::Withdraw { place, now }).at(place) == (UserLoan {
                unstake_requested_at: now,
                ..ledger.at(place)
            })
        },
        ledger.at(place).debt_amount == 0 && ledger.at(place).cooldown_pending() && now
            - ledger.at(place).unstake_requested_at < ledger.vault.cooldown_period ==> {
            &&& withdraw_collateral::rejection(ledger.at(place), ledger.vault, now) == Some(
                VaultError::CooldownNotMet,
            )
            &&& ledger.apply(Step::Withdraw { place, now }) == ledger
        },
        ledger.at(place).debt_amount == 0 && ledger.at(place).cooldown_pending() && now
            - ledger.at(place).unstake_requested_at >= ledger.vault.cooldown_period
            && ledger.balanced() ==> {
            &&& !ledger.apply(Step::Withdraw { place, now }).live(place)
            &&& ledger.apply(Step::Withdraw { place, now }).vault.total_collateral
                == ledger.vault.total_collateral - ledger.at(place).collateral_amount
            &&& ledger.apply(Step::Withdraw { place, now }).vault.total_debt
                == ledger.vault.total_debt
        },
{
    lemma_part_within_whole(ledger.positions, place);
}

/// A harvest made again at the same time changes nothing in the ledger.
pub proof fn lemma_repeated_harvest_keeps_ledger(ledger: Ledger, place: int, now: i64)
    ensures
        ledger.apply(Step::Harvest { place, now }).apply(Step::Harvest { place, now })
            == ledger.apply(Step::Harvest { place, now }),
{
    let once = ledger.apply(Step::Harvest { place, now });
    let twice = once.apply(Step::Harvest { place, now });
    if ledger.live(place) {
        harvest_repay::lemma_repeated_harvest_is_idle(ledger.at(place), ledger.vault, now);
        assert(twice.positions =~= once.positions);
    }
}

/// No step takes a vault's configuration out of its bounds.
pub proof fn lemma_step_keeps_vault_well_formed(ledger: Ledger, step: Step)
    requires
        ledger.vault.well_formed(),
    ensures
        ledger.apply(step).vault.well_formed(),
{
}

/// No step gives a user a second position.
pub proof fn lemma_step_keeps_one_position_each(ledger: Ledger, step: Step)
    requires
        ledger.one_position_each(),
    ensures
        ledger.apply(step).one_position_each(),
{
    let after = ledger.apply(step);
    assert forall|a: int, b: int|
        after.live(a) && after.live(b) && #[trigger] after.at(a).owner == #[trigger] after.at(
            b,
        ).owner implies a == b by {
        match step {
            Step::Open { user, now, bump } => {
                if !ledger.has_position(user) {
                    let end = ledger.positions.len() as int;
                    if a < end && b < end {
                        assert(ledger.live(a) && ledger.live(b));
                        assert(ledger.at(a).owner == ledger.at(b).owner);
                    } else if a < end {
                        assert(ledger.live(a) && ledger.at(a).owner == user);
                    } else if b < end {
                        assert(ledger.live(b) && ledger.at(b).owner == user);
                    }
                }
            },
            _ => {
                assert(ledger.live(a) && ledger.live(b));
                assert(ledger.at(a).owner == ledger.at(b).owner);
            },
        }
    }
}

} // verus!
