//! The books of one contract: its two pools and the supplies of its two
//! tokens, and what each operation does to them and to a holder's wallet.
//!
//! Each contract is an accounting unit of its own. An operation either
//! takes effect as a whole or leaves the books and the wallet as they were.

use crate::accounts::Instruction;
use crate::error::ErrorCode;
use crate::events::{OptionExerciseEvent, OptionRedeemEvent};
use crate::ixs::exercise::OptionExercise;
use crate::ixs::redeem::OptionRedeem;
use crate::math::{fee_of, fee_representable, fee_split, lemma_share_within_pool, proportional_share, share_of, FeeSplit};
use crate::state::{exercise_amount, OptionsContract};
use vstd::prelude::*;

verus! {

/// What one holder owns of a contract's four assets.
#[derive(Clone, Copy, Debug, PartialEq, Eq, Structural)]
pub struct Holder {
    /// Tokens of the collateral asset.
    pub collateral: u64,
    /// Tokens of the asset in which exercise is paid.
    pub payment: u64,
    /// Writer tokens.
    pub writer_tokens: u64,
    /// Option tokens.
    pub option_tokens: u64,
}

/// The books of one contract.
#[derive(Clone, Copy, Debug, PartialEq, Eq)]
pub struct Ledger {
    /// The contract's terms.
    pub contract: OptionsContract,
    /// Balance of the collateral pool.
    pub collateral_pool: u64,
    /// Balance of the exercise-proceeds pool.
    pub exercise_pool: u64,
    /// Writer tokens outstanding.
    pub writer_supply: u64,
    /// Option tokens outstanding.
    pub option_supply: u64,
    /// Fees paid to the protocol so far.
    pub fees_collected: u64,
}

/// The books of a contract on which nothing has happened yet.
pub open spec fn fresh(contract: OptionsContract) -> Ledger {
    Ledger {
        contract,
        collateral_pool: 0,
        exercise_pool: 0,
        writer_supply: 0,
        option_supply: 0,
        fees_collected: 0,
    }
}

/// Writing `amount` options at `now`: allowed strictly before expiry,
/// where the holder has the collateral. The collateral moves into the pool,
/// and the holder receives as many writer tokens and as many options.
pub open spec fn write_outcome(l: Ledger, h: Holder, amount: u64, now: i64) -> Result<
    (Ledger, Holder),
    ErrorCode,
> {
    if now >= l.contract.expiry_ts {
        Err(ErrorCode::ContractExpired)
    } else if h.collateral < amount {
        Err(ErrorCode::InsufficientCollateral)
    } else if l.collateral_pool + amount > u64::MAX || l.writer_supply + amount > u64::MAX
        || l.option_supply + amount > u64::MAX || h.writer_tokens + amount > u64::MAX
        || h.option_tokens + amount > u64::MAX {
        Err(ErrorCode::ArithmeticOverflow)
    } else {
        Ok(
            (
                Ledger {
                    collateral_pool: (l.collateral_pool + amount) as u64,
                    writer_supply: (l.writer_supply + amount) as u64,
                    option_supply: (l.option_supply + amount) as u64,
                    ..l
                },
                Holder {
                    collateral: (h.collateral - amount) as u64,
                    writer_tokens: (h.writer_tokens + amount) as u64,
                    option_tokens: (h.option_tokens + amount) as u64,
                    ..h
                },
            ),
        )
    }
}

/// Exercising `amount` options at `now`: allowed strictly before expiry.
/// The holder pays the exercise amount, of which the fee goes to the
/// protocol and the rest into the exercise-proceeds pool; the options are
/// burned, and the holder takes as much collateral as options exercised.
pub open spec fn exercise_outcome(l: Ledger, h: Holder, amount: u64, now: i64) -> Result<
    (Ledger, Holder, FeeSplit),
    ErrorCode,
> {
    let gross = exercise_amount(l.contract.is_put, l.contract.strike, amount);
    if now >= l.contract.expiry_ts {
        Err(ErrorCode::ContractExpired)
    } else if gross is None || !fee_representable(gross.unwrap() as int) {
        Err(ErrorCode::ArithmeticOverflow)
    } else {
        let fee = fee_of(gross.unwrap() as int) as u64;
        let net = (gross.unwrap() - fee) as u64;
        if h.option_tokens < amount || h.payment < gross.unwrap() || l.option_supply < amount
            || l.collateral_pool < amount {
            Err(ErrorCode::InsufficientFunds)
        } else if l.exercise_pool + net > u64::MAX || l.fees_collected + fee > u64::MAX
            || h.collateral + amount > u64::MAX {
            Err(ErrorCode::ArithmeticOverflow)
        } else {
            Ok(
                (
                    Ledger {
                        collateral_pool: (l.collateral_pool - amount) as u64,
                        exercise_pool: (l.exercise_pool + net) as u64,
                        option_supply: (l.option_supply - amount) as u64,
                        fees_collected: (l.fees_collected + fee) as u64,
                        ..l
                    },
                    Holder {
                        collateral: (h.collateral + amount) as u64,
                        payment: (h.payment - gross.unwrap()) as u64,
                        option_tokens: (h.option_tokens - amount) as u64,
                        ..h
                    },
                    FeeSplit { fee, net },
                ),
            )
        }
    }
}

/// Redeeming `amount` writer tokens at `now`: allowed at or after expiry,
/// while writer tokens are outstanding. The holder takes, from each pool
/// on its own, the share that `amount` is of the writer supply, both taken
/// from the books as they stand; the writer tokens are burned.
pub open spec fn redeem_outcome(l: Ledger, h: Holder, amount: u64, now: i64) -> Result<
    (Ledger, Holder, (u64, u64)),
    ErrorCode,
> {
    if now < l.contract.expiry_ts {
        Err(ErrorCode::ContractNotYetExpired)
    } else if l.writer_supply == 0 {
        Err(ErrorCode::ZeroDenominator)
    } else if h.writer_tokens < amount || l.writer_supply < amount {
        Err(ErrorCode::InsufficientFunds)
    } else {
        let from_collateral = share_of(
            l.collateral_pool as int,
            amount as int,
            l.writer_supply as int,
        );
        let from_exercise = share_of(l.exercise_pool as int, amount as int, l.writer_supply as int);
        if h.collateral + from_collateral > u64::MAX || h.payment + from_exercise > u64::MAX {
            Err(ErrorCode::ArithmeticOverflow)
        } else {
            Ok(
                (
                    Ledger {
                        collateral_pool: (l.collateral_pool - from_collateral) as u64,
                        exercise_pool: (l.exercise_pool - from_exercise) as u64,
                        writer_supply: (l.writer_supply - amount) as u64,
                        ..l
                    },
                    Holder {
                        collateral: (h.collateral + from_collateral) as u64,
                        payment: (h.payment + from_exercise) as u64,
                        writer_tokens: (h.writer_tokens - amount) as u64,
                        ..h
                    },
                    (from_collateral as u64, from_exercise as u64),
                ),
            )
        }
    }
}

/// Burning `amount` writer tokens and as many options: allowed at any
/// time. The holder takes as much collateral back, free of fees; neither
/// the exercise-proceeds pool nor the fees are touched. Burning nothing
/// changes nothing.
pub open spec fn burn_outcome(l: Ledger, h: Holder, amount: u64) -> Result<
    (Ledger, Holder),
    ErrorCode,
> {
    if amount == 0 {
        Ok((l, h))
    } else if h.writer_tokens < amount || h.option_tokens < amount || l.writer_supply < amount
        || l.option_supply < amount || l.collateral_pool < amount {
        Err(ErrorCode::InsufficientFunds)
    } else if h.collateral + amount > u64::MAX {
        Err(ErrorCode::ArithmeticOverflow)
    } else {
        Ok(
            (
                Ledger {
                    collateral_pool: (l.collateral_pool - amount) as u64,
                    writer_supply: (l.writer_supply - amount) as u64,
                    option_supply: (l.option_supply - amount) as u64,
                    ..l
                },
                Holder {
                    collateral: (h.collateral + amount) as u64,
                    writer_tokens: (h.writer_tokens - amount) as u64,
                    option_tokens: (h.option_tokens - amount) as u64,
                    ..h
                },
            ),
        )
    }
}

/// One of the four operations on a contract, with its amount.
#[derive(Clone, Copy, Debug, PartialEq, Eq, Structural)]
pub enum Operation {
    /// Lock collateral against new writer tokens and options.
    Write { write_amount: u64 },
    /// Pay the strike to take collateral for options.
    Exercise { option_amount: u64 },
    /// Give up writer tokens for a share of both pools.
    Redeem { writer_amount: u64 },
    /// Give up matched writer tokens and options for their collateral.
    Burn { burn_amount: u64 },
}

/// What an operation that took effect reports.
#[derive(Clone, Copy, Debug, PartialEq, Eq, Structural)]
pub enum Receipt {
    /// Options were written.
    Written,
    /// Options were exercised; the payment was split like this.
    Exercised(FeeSplit),
    /// Writer tokens were redeemed for these two shares.
    Redeemed { from_collateral: u64, from_exercise: u64 },
    /// Matched tokens were burned.
    Burned,
}

impl Operation {
    /// Whether the contract's lifecycle allows the operation at `now`:
    /// writing and exercise strictly before expiry, redemption at or after
    /// it, burning always.
    pub open spec fn permitted_at(self, contract: OptionsContract, now: i64) -> bool {
        match self {
            Operation::Write { .. } => now < contract.expiry_ts,
            Operation::Exercise { .. } => now < contract.expiry_ts,
            Operation::Redeem { .. } => now >= contract.expiry_ts,
            Operation::Burn { .. } => true,
        }
    }

    /// The amount the operation is for.
    pub open spec fn amount(self) -> u64 {
        match self {
            Operation::Write { write_amount } => write_amount,
            Operation::Exercise { option_amount } => option_amount,
            Operation::Redeem { writer_amount } => writer_amount,
            Operation::Burn { burn_amount } => burn_amount,
        }
    }

    /// Tests whether the contract's lifecycle allows the operation at `now`.
    pub fn is_permitted(&self, contract: &OptionsContract, now: i64) -> (r: bool)
        ensures
            r == self.permitted_at(*contract, now),
    {
        match self {
            Operation::Write { .. } => contract.active_at(now),
            Operation::Exercise { .. } => contract.active_at(now),
            Operation::Redeem { .. } => !contract.active_at(now),
            Operation::Burn { .. } => true,
        }
    }
}

/// What an operation does to the books and to the holder's wallet.
pub open spec fn apply_outcome(l: Ledger, h: Holder, op: Operation, now: i64) -> Result<
    (Ledger, Holder, Receipt),
    ErrorCode,
> {
    match op {
        Operation::Write { write_amount } => match write_outcome(l, h, write_amount, now) {
            Ok((l2, h2)) => Ok((l2, h2, Receipt::Written)),
            Err(code) => Err(code),
        },
        Operation::Exercise { option_amount } => match exercise_outcome(l, h, option_amount, now) {
            Ok((l2, h2, split)) => Ok((l2, h2, Receipt::Exercised(split))),
            Err(code) => Err(code),
        },
        Operation::Redeem { writer_amount } => match redeem_outcome(l, h, writer_amount, now) {
            Ok((l2, h2, shares)) => Ok(
                (l2, h2, Receipt::Redeemed { from_collateral: shares.0, from_exercise: shares.1 }),
            ),
            Err(code) => Err(code),
        },
        Operation::Burn { burn_amount } => match burn_outcome(l, h, burn_amount) {
            Ok((l2, h2)) => Ok((l2, h2, Receipt::Burned)),
            Err(code) => Err(code),
        },
    }
}

/// The books and the wallet after an operation was attempted: changed
/// where it took effect, untouched where it was refused.
pub open spec fn after(l: Ledger, h: Holder, op: Operation, now: i64) -> (Ledger, Holder) {
    match apply_outcome(l, h, op, now) {
        Ok((l2, h2, _)) => (l2, h2),
        Err(_) => (l, h),
    }
}

/// The books and the wallet after a history of attempted operations, each
/// with its time, oldest first.
pub open spec fn replay(l: Ledger, h: Holder, history: Seq<(Operation, i64)>) -> (Ledger, Holder)
    decreases history.len(),
{
    if history.len() == 0 {
        (l, h)
    } else {
        let before = replay(l, h, history.drop_last());
        after(before.0, before.1, history.last().0, history.last().1)
    }
}

impl Ledger {
    /// Opens the books of a new contract: both pools are empty and no
    /// writer token and no option is outstanding.
    pub fn new(contract: OptionsContract) -> (r: Ledger)
        ensures
            r == fresh(contract),
            r.collateral_pool == 0 && r.exercise_pool == 0,
            r.writer_supply == 0 && r.option_supply == 0,
    {
        Ledger {
            contract,
            collateral_pool: 0,
            exercise_pool: 0,
            writer_supply: 0,
            option_supply: 0,
            fees_collected: 0,
        }
    }

    /// Writes `amount` options for `holder` at time `now`.
    pub fn write(&mut self, holder: &mut Holder, amount: u64, now: i64) -> (r: Result<
        (),
        ErrorCode,
    >)
        ensures
            match write_outcome(*old(self), *old(holder), amount, now) {
                Ok((l, h)) => r is Ok && *final(self) == l && *final(holder) == h,
                Err(code) => r == Err::<(), ErrorCode>(code) && *final(self) == *old(self)
                    && *final(holder) == *old(holder),
            },
    {
        if !self.contract.active_at(now) {
            return Err(ErrorCode::ContractExpired);
        }
        if holder.collateral < amount {
            return Err(ErrorCode::InsufficientCollateral);
        }
        let pool = self.collateral_pool.checked_add(amount);
        let writers = self.writer_supply.checked_add(amount);
        let options = self.option_supply.checked_add(amount);
        let held_writers = holder.writer_tokens.checked_add(amount);
        let held_options = holder.option_tokens.checked_add(amount);
        match (pool, writers, options, held_writers, held_options) {
            (Some(p), Some(w), Some(o), Some(hw), Some(ho)) => {
                self.collateral_pool = p;
                self.writer_supply = w;
                self.option_supply = o;
                holder.collateral = holder.collateral - amount;
                holder.writer_tokens = hw;
                holder.option_tokens = ho;
                Ok(())
            },
            _ => Err(ErrorCode::ArithmeticOverflow),
        }
    }

    /// Exercises `amount` of `holder`'s options at time `now`, and says
    /// how the payment was split.
    pub fn exercise(&mut self, holder: &mut Holder, amount: u64, now: i64) -> (r: Result<
        FeeSplit,
        ErrorCode,
    >)
        ensures
            match exercise_outcome(*old(self), *old(holder), amount, now) {
                Ok((l, h, split)) => r == Ok::<FeeSplit, ErrorCode>(split) && *final(self) == l
                    && *final(holder) == h,
                Err(code) => r == Err::<FeeSplit, ErrorCode>(code) && *final(self) == *old(self)
                    && *final(holder) == *old(holder),
            },
    {
        if !self.contract.active_at(now) {
            return Err(ErrorCode::ContractExpired);
        }
        let gross = match self.contract.calculate_exercise_amount_for_options(amount) {
            Some(v) => v,
            None => return Err(ErrorCode::ArithmeticOverflow),
        };
        let split = match fee_split(gross) {
            Ok(s) => s,
            Err(code) => return Err(code),
        };
        if holder.option_tokens < amount || holder.payment < gross || self.option_supply < amount
            || self.collateral_pool < amount {
            return Err(ErrorCode::InsufficientFunds);
        }
        let proceeds = self.exercise_pool.checked_add(split.net);
        let fees = self.fees_collected.checked_add(split.fee);
        let held = holder.collateral.checked_add(amount);
        match (proceeds, fees, held) {
            (Some(p), Some(f), Some(c)) => {
                self.collateral_pool = self.collateral_pool - amount;
                self.exercise_pool = p;
                self.option_supply = self.option_supply - amount;
                self.fees_collected = f;
                holder.collateral = c;
                holder.payment = holder.payment - gross;
                holder.option_tokens = holder.option_tokens - amount;
                Ok(split)
            },
            _ => Err(ErrorCode::ArithmeticOverflow),
        }
    }

    /// Redeems `amount` of `holder`'s writer tokens at time `now`, and
    /// says what was taken from the collateral pool and from the
    /// exercise-proceeds pool.
    pub fn redeem(&mut self, holder: &mut Holder, amount: u64, now: i64) -> (r: Result<
        (u64, u64),
        ErrorCode,
    >)
        ensures
            match redeem_outcome(*old(self), *old(holder), amount, now) {
                Ok((l, h, shares)) => r == Ok::<(u64, u64), ErrorCode>(shares) && *final(self) == l
                    && *final(holder) == h,
                Err(code) => r == Err::<(u64, u64), ErrorCode>(code) && *final(self) == *old(self)
                    && *final(holder) == *old(holder),
            },
    {
        if self.contract.active_at(now) {
            return Err(ErrorCode::ContractNotYetExpired);
        }
        if self.writer_supply == 0 {
            return Err(ErrorCode::ZeroDenominator);
        }
        if holder.writer_tokens < amount || self.writer_supply < amount {
            return Err(ErrorCode::InsufficientFunds);
        }
        proof {
            lemma_share_within_pool(
                self.collateral_pool as int,
                amount as int,
                self.writer_supply as int,
            );
            lemma_share_within_pool(
                self.exercise_pool as int,
                amount as int,
                self.writer_supply as int,
            );
        }
        let from_collateral = match proportional_share(
            self.collateral_pool,
            amount,
            self.writer_supply,
        ) {
            Ok(v) => v,
            Err(code) => return Err(code),
        };
        let from_exercise = match proportional_share(self.exercise_pool, amount, self.writer_supply) {
            Ok(v) => v,
            Err(code) => return Err(code),
        };
        let held_collateral = holder.collateral.checked_add(from_collateral);
        let held_payment = holder.payment.checked_add(from_exercise);
        match (held_collateral, held_payment) {
            (Some(c), Some(p)) => {
                self.collateral_pool = self.collateral_pool - from_collateral;
                self.exercise_pool = self.exercise_pool - from_exercise;
                self.writer_supply = self.writer_supply - amount;
                holder.collateral = c;
                holder.payment = p;
                holder.writer_tokens = holder.writer_tokens - amount;
                Ok((from_collateral, from_exercise))
            },
            _ => Err(ErrorCode::ArithmeticOverflow),
        }
    }

    /// Burns `amount` of `holder`'s writer tokens and as many of their
    /// options, at any time.
    pub fn burn(&mut self, holder: &mut Holder, amount: u64) -> (r: Result<(), ErrorCode>)
        ensures
            match burn_outcome(*old(self), *old(holder), amount) {
                Ok((l, h)) => r is Ok && *final(self) == l && *final(holder) == h,
                Err(code) => r == Err::<(), ErrorCode>(code) && *final(self) == *old(self)
                    && *final(holder) == *old(holder),
            },
    {
        if amount == 0 {
            return Ok(());
        }
        if holder.writer_tokens < amount || holder.option_tokens < amount || self.writer_supply
            < amount || self.option_supply < amount || self.collateral_pool < amount {
            return Err(ErrorCode::InsufficientFunds);
        }
        match holder.collateral.checked_add(amount) {
            Some(c) => {
                self.collateral_pool = self.collateral_pool - amount;
                self.writer_supply = self.writer_supply - amount;
                self.option_supply = self.option_supply - amount;
                holder.collateral = c;
                holder.writer_tokens = holder.writer_tokens - amount;
                holder.option_tokens = holder.option_tokens - amount;
                Ok(())
            },
            None => Err(ErrorCode::ArithmeticOverflow),
        }
    }

    /// Carries out one operation for `holder` at time `now`: the single
    /// entry through which all four operations can be dispatched.
    pub fn apply(&mut self, holder: &mut Holder, op: Operation, now: i64) -> (r: Result<
        Receipt,
        ErrorCode,
    >)
        ensures
            match apply_outcome(*old(self), *old(holder), op, now) {
                Ok((l, h, receipt)) => r == Ok::<Receipt, ErrorCode>(receipt) && *final(self) == l
                    && *final(holder) == h,
                Err(code) => r == Err::<Receipt, ErrorCode>(code) && *final(self) == *old(self)
                    && *final(holder) == *old(holder),
            },
            (*final(self), *final(holder)) == after(*old(self), *old(holder), op, now),
    {
        match op {
            Operation::Write { write_amount } => match self.write(holder, write_amount, now) {
                Ok(()) => Ok(Receipt::Written),
                Err(code) => Err(code),
            },
            Operation::Exercise { option_amount } => match self.exercise(
                holder,
                option_amount,
                now,
            ) {
                Ok(split) => Ok(Receipt::Exercised(split)),
                Err(code) => Err(code),
            },
            Operation::Redeem { writer_amount } => match self.redeem(holder, writer_amount, now) {
                Ok(shares) => Ok(
                    Receipt::Redeemed { from_collateral: shares.0, from_exercise: shares.1 },
                ),
                Err(code) => Err(code),
            },
            Operation::Burn { burn_amount } => match self.burn(holder, burn_amount) {
                Ok(()) => Ok(Receipt::Burned),
                Err(code) => Err(code),
            },
        }
    }
}

/// Writing and at once burning the same amount is a round trip: the burn
/// succeeds, and the holder's wallet, their collateral with it, and the
/// books are exactly what they were before the write.
pub proof fn lemma_write_then_burn_restores(l: Ledger, h: Holder, amount: u64, now: i64)
    requires
        write_outcome(l, h, amount, now) is Ok,
    ensures
        burn_outcome(
            write_outcome(l, h, amount, now).unwrap().0,
            write_outcome(l, h, amount, now).unwrap().1,
            amount,
        ) == Ok::<(Ledger, Holder), ErrorCode>((l, h)),
        burn_outcome(
            write_outcome(l, h, amount, now).unwrap().0,
            write_outcome(l, h, amount, now).unwrap().1,
            amount,
        ).unwrap().1.collateral == h.collateral,
{
}

/// Whether every outstanding option is backed by exactly one unit of
/// collateral in the pool, and matched by a writer token.
pub open spec fn fully_backed(l: Ledger) -> bool {
    l.collateral_pool == l.option_supply && l.option_supply <= l.writer_supply
}

/// Options stay backed one for one: new books are fully backed, and
/// writing, exercise and burning keep them so. Only redemption, which
/// opens when exercise has closed, takes collateral without an option.
pub proof fn lemma_options_stay_backed(l: Ledger, h: Holder, amount: u64, now: i64)
    requires
        fully_backed(l),
    ensures
        fully_backed(fresh(l.contract)),
        write_outcome(l, h, amount, now) matches Ok(after) ==> fully_backed(after.0),
        exercise_outcome(l, h, amount, now) matches Ok(after) ==> fully_backed(after.0),
        burn_outcome(l, h, amount) matches Ok(after) ==> fully_backed(after.0),
{
}

/// Nothing is lost on the way: whatever collateral or payment leaves a
/// wallet enters a pool or the protocol's fees, and whatever leaves a pool
/// enters the wallet.
pub proof fn lemma_operations_conserve_assets(l: Ledger, h: Holder, amount: u64, now: i64)
    ensures
        write_outcome(l, h, amount, now) matches Ok(after) ==> after.0.collateral_pool
            + after.1.collateral == l.collateral_pool + h.collateral,
        exercise_outcome(l, h, amount, now) matches Ok(after) ==> after.0.collateral_pool
            + after.1.collateral == l.collateral_pool + h.collateral && after.0.exercise_pool
            + after.0.fees_collected + after.1.payment == l.exercise_pool + l.fees_collected
            + h.payment,
        redeem_outcome(l, h, amount, now) matches Ok(after) ==> after.0.collateral_pool
            + after.1.collateral == l.collateral_pool + h.collateral && after.0.exercise_pool
            + after.1.payment == l.exercise_pool + h.payment,
        burn_outcome(l, h, amount) matches Ok(after) ==> after.0.collateral_pool
            + after.1.collateral == l.collateral_pool + h.collateral,
{
    if now >= l.contract.expiry_ts && 0 < l.writer_supply && amount <= l.writer_supply {
        lemma_share_within_pool(l.collateral_pool as int, amount as int, l.writer_supply as int);
        lemma_share_within_pool(l.exercise_pool as int, amount as int, l.writer_supply as int);
    }
}

/// The instructions of an exercise move what the books record: wherever
/// the books accept an exercise on a contract, the accounts of that
/// contract, holding what the holder's wallet holds, yield instructions
/// that pay the same net amount and the same fee, burn the options
/// exercised and withdraw as much collateral.
pub proof fn lemma_exercise_plan_agrees_with_books(
    accounts: OptionExercise,
    l: Ledger,
    h: Holder,
    amount: u64,
    now: i64,
)
    requires
        accounts.contract == l.contract,
        accounts.option_token_source.amount == h.option_tokens,
        accounts.exercise_token_source.amount == h.payment,
        exercise_outcome(l, h, amount, now) is Ok,
    ensures
        accounts.outcome(amount, now) == Ok::<(Seq<Instruction>, OptionExerciseEvent), ErrorCode>(
            (
                accounts.instructions(
                    amount,
                    exercise_outcome(l, h, amount, now).unwrap().2.net,
                    exercise_outcome(l, h, amount, now).unwrap().2.fee,
                ),
                accounts.event(amount, now),
            ),
        ),
{
}

/// The instructions of a redemption move what the books record: wherever
/// the accounts are those of the books' contract and show the balances and
/// the supply that the books hold, and the books accept a redemption, the
/// accounts yield instructions that burn the writer tokens and withdraw
/// the same two shares.
pub proof fn lemma_redeem_plan_agrees_with_books(
    accounts: OptionRedeem,
    l: Ledger,
    h: Holder,
    amount: u64,
    now: i64,
)
    requires
        accounts.contract == l.contract,
        accounts.crate_collateral_tokens.amount == l.collateral_pool,
        accounts.crate_exercise_tokens.amount == l.exercise_pool,
        accounts.writer_mint.supply == l.writer_supply,
        accounts.writer_token_source.amount == h.writer_tokens,
        redeem_outcome(l, h, amount, now) is Ok,
    ensures
        accounts.outcome(amount, now) == Ok::<(Seq<Instruction>, OptionRedeemEvent), ErrorCode>(
            (
                accounts.instructions(
                    amount,
                    redeem_outcome(l, h, amount, now).unwrap().2.0,
                    redeem_outcome(l, h, amount, now).unwrap().2.1,
                ),
                accounts.event(amount, now),
            ),
        ),
{
    lemma_share_within_pool(l.collateral_pool as int, amount as int, l.writer_supply as int);
    lemma_share_within_pool(l.exercise_pool as int, amount as int, l.writer_supply as int);
}

/// Over any history of operations, nothing is created and nothing is
/// lost: the collateral in the pool and in the wallet together, and the
/// payment asset in the exercise-proceeds pool, in the protocol's fees and
/// in the wallet together, are what they were at the start.
pub proof fn lemma_history_conserves_assets(l: Ledger, h: Holder, history: Seq<(Operation, i64)>)
    ensures
        replay(l, h, history).0.collateral_pool + replay(l, h, history).1.collateral
            == l.collateral_pool + h.collateral,
        replay(l, h, history).0.exercise_pool + replay(l, h, history).0.fees_collected + replay(
            l,
            h,
            history,
        ).1.payment == l.exercise_pool + l.fees_collected + h.payment,
        replay(l, h, history).0.contract == l.contract,
    decreases history.len(),
{
    if history.len() > 0 {
        lemma_history_conserves_assets(l, h, history.drop_last());
        let before = replay(l, h, history.drop_last());
        let (op, now) = history.last();
        lemma_operations_conserve_assets(before.0, before.1, op.amount(), now);
    }
}

/// An operation outside its window is refused, whatever the amounts:
/// writing and exercise as too late, redemption as too early.
pub proof fn lemma_outside_window_is_refused(l: Ledger, h: Holder, op: Operation, now: i64)
    requires
        !op.permitted_at(l.contract, now),
    ensures
        op is Redeem ==> apply_outcome(l, h, op, now) == Err::<
            (Ledger, Holder, Receipt),
            ErrorCode,
        >(ErrorCode::ContractNotYetExpired),
        !(op is Redeem) ==> apply_outcome(l, h, op, now) == Err::<
            (Ledger, Holder, Receipt),
            ErrorCode,
        >(ErrorCode::ContractExpired),
        after(l, h, op, now) == (l, h),
{
}

/// The expiry gate: before expiry, redemption is refused as too early and
/// neither writing nor exercise is refused as too late; from expiry on,
/// writing and exercise are refused as too late and redemption is not
/// refused as too early. Burning is never refused for the time.
pub proof fn lemma_expiry_gate(l: Ledger, h: Holder, amount: u64, now: i64)
    ensures
        now < l.contract.expiry_ts ==> redeem_outcome(l, h, amount, now) == Err::<
            (Ledger, Holder, (u64, u64)),
            ErrorCode,
        >(ErrorCode::ContractNotYetExpired),
        now < l.contract.expiry_ts ==> write_outcome(l, h, amount, now) != Err::<
            (Ledger, Holder),
            ErrorCode,
        >(ErrorCode::ContractExpired),
        now < l.contract.expiry_ts ==> exercise_outcome(l, h, amount, now) != Err::<
            (Ledger, Holder, FeeSplit),
            ErrorCode,
        >(ErrorCode::ContractExpired),
        now >= l.contract.expiry_ts ==> write_outcome(l, h, amount, now) == Err::<
            (Ledger, Holder),
            ErrorCode,
        >(ErrorCode::ContractExpired),
        now >= l.contract.expiry_ts ==> exercise_outcome(l, h, amount, now) == Err::<
            (Ledger, Holder, FeeSplit),
            ErrorCode,
        >(ErrorCode::ContractExpired),
        now >= l.contract.expiry_ts ==> redeem_outcome(l, h, amount, now) != Err::<
            (Ledger, Holder, (u64, u64)),
            ErrorCode,
        >(ErrorCode::ContractNotYetExpired),
{
}

/// Exercise strictly before expiry succeeds wherever the amounts allow
/// it: the payment and its fee can be computed, the holder has the options
/// and the payment, the books hold the options and the collateral, and no
/// balance would pass the 64-bit limit.
pub proof fn lemma_exercise_before_expiry_succeeds(l: Ledger, h: Holder, amount: u64, now: i64)
    requires
        now < l.contract.expiry_ts,
        exercise_amount(l.contract.is_put, l.contract.strike, amount) is Some,
        fee_representable(
            exercise_amount(l.contract.is_put, l.contract.strike, amount).unwrap() as int,
        ),
        h.option_tokens >= amount,
        h.payment >= exercise_amount(l.contract.is_put, l.contract.strike, amount).unwrap(),
        l.option_supply >= amount,
        l.collateral_pool >= amount,
        l.exercise_pool + exercise_amount(l.contract.is_put, l.contract.strike, amount).unwrap()
            <= u64::MAX,
        l.fees_collected + exercise_amount(l.contract.is_put, l.contract.strike, amount).unwrap()
            <= u64::MAX,
        h.collateral + amount <= u64::MAX,
    ensures
        exercise_outcome(l, h, amount, now) is Ok,
{
}

/// Redemption at or after expiry succeeds wherever the holder has the
/// writer tokens, which are part of a supply that is not zero, and no
/// balance of theirs would pass the 64-bit limit.
pub proof fn lemma_redeem_from_expiry_succeeds(l: Ledger, h: Holder, amount: u64, now: i64)
    requires
        now >= l.contract.expiry_ts,
        0 < l.writer_supply,
        amount <= l.writer_supply,
        amount <= h.writer_tokens,
        h.collateral + l.collateral_pool <= u64::MAX,
        h.payment + l.exercise_pool <= u64::MAX,
    ensures
        redeem_outcome(l, h, amount, now) is Ok,
{
    lemma_share_within_pool(l.collateral_pool as int, amount as int, l.writer_supply as int);
    lemma_share_within_pool(l.exercise_pool as int, amount as int, l.writer_supply as int);
}

} // verus!
