//! Exercising options: paying the strike to take the collateral.

use crate::accounts::{free_withdrawal, plan_of, withdraw_without_fee, Instruction, TokenAccount};
use crate::error::ErrorCode;
use crate::events::OptionExerciseEvent;
use crate::math::{fee_of, fee_representable, fee_split};
use crate::pubkey::{fee_owner, fee_owner_bytes, Pubkey};
use crate::state::{exercise_amount, OptionsContract};
use vstd::prelude::*;

verus! {

/// Accounts for exercising options.
#[derive(Clone, Copy, Debug, PartialEq, Eq)]
pub struct OptionExercise {
    /// The authority of the option and payment accounts.
    pub exerciser_authority: Pubkey,
    /// Address of the options contract.
    pub contract_key: Pubkey,
    /// The options contract.
    pub contract: OptionsContract,
    /// The exerciser's tokens used to pay for the exercise of the options.
    pub exercise_token_source: TokenAccount,
    /// The option mint.
    pub option_mint: Pubkey,
    /// The exerciser's option tokens.
    pub option_token_source: TokenAccount,
    /// The writer crate token.
    pub writer_crate_token: Pubkey,
    /// The crate's collateral tokens, which back the options.
    pub crate_collateral_tokens: Pubkey,
    /// The crate's exercise tokens, which are received when options are exercised.
    pub crate_exercise_tokens: Pubkey,
    /// The account the collateral is sent to.
    pub collateral_token_destination: TokenAccount,
    /// The account the exercise fee is sent to.
    pub exercise_fee_destination: TokenAccount,
}

impl OptionExercise {
    /// Whether the accounts presented are the exerciser's own and those
    /// the contract records.
    pub open spec fn accounts_match(&self) -> bool {
        &&& self.exercise_token_source.owner == self.exerciser_authority
        &&& self.exercise_token_source.mint == self.contract.spec_exercise_mint()
        &&& self.option_mint == self.contract.option_mint
        &&& self.option_token_source.owner == self.exerciser_authority
        &&& self.option_token_source.mint == self.contract.option_mint
        &&& self.writer_crate_token == self.contract.writer_crate
        &&& self.crate_collateral_tokens == self.contract.crate_collateral_tokens
        &&& self.crate_exercise_tokens == self.contract.crate_exercise_tokens
        &&& self.collateral_token_destination.mint == self.contract.spec_collateral_mint()
    }

    /// Whether the fee goes to the protocol's fee owner.
    pub open spec fn fee_goes_to_protocol(&self) -> bool {
        self.exercise_fee_destination.owner@ == fee_owner_bytes()
    }

    /// The instructions of an exercise of `option_amount` options that
    /// costs `net` for the pool and `fee` for the protocol.
    pub open spec fn instructions(&self, option_amount: u64, net: u64, fee: u64) -> Seq<
        Instruction,
    > {
        seq![
            Instruction::Transfer {
                from: self.exercise_token_source.key,
                to: self.crate_exercise_tokens,
                authority: self.exerciser_authority,
                amount: net,
            },
            Instruction::Transfer {
                from: self.exercise_token_source.key,
                to: self.exercise_fee_destination.key,
                authority: self.exerciser_authority,
                amount: fee,
            },
            Instruction::Burn {
                mint: self.option_mint,
                from: self.option_token_source.key,
                authority: self.exerciser_authority,
                amount: option_amount,
            },
            free_withdrawal(
                self.writer_crate_token,
                self.crate_collateral_tokens,
                self.contract_key,
                self.collateral_token_destination.key,
                option_amount,
            ),
        ]
    }

    /// The record of an exercise.
    pub open spec fn event(&self, option_amount: u64, now: i64) -> OptionExerciseEvent {
        OptionExerciseEvent {
            contract: self.contract_key,
            exerciser: self.exerciser_authority,
            option_amount,
            timestamp: now,
        }
    }

    /// Whether the payment for `option_amount` options and its fee can be
    /// computed.
    pub open spec fn payable(&self, option_amount: u64) -> bool {
        match exercise_amount(self.contract.is_put, self.contract.strike, option_amount) {
            Some(gross) => fee_representable(gross as int),
            None => false,
        }
    }

    /// Whether the exerciser holds the options to be exercised and the
    /// payment for them, where there is one.
    pub open spec fn funded(&self, option_amount: u64) -> bool {
        &&& self.option_token_source.amount >= option_amount
        &&& exercise_amount(self.contract.is_put, self.contract.strike, option_amount) matches Some(
            gross,
        ) ==> self.exercise_token_source.amount >= gross
    }

    /// What validation answers at time `now`.
    pub open spec fn admission(&self, now: i64) -> Result<(), ErrorCode> {
        if now >= self.contract.expiry_ts {
            Err(ErrorCode::ContractExpired)
        } else if !self.accounts_match() {
            Err(ErrorCode::KeyMismatch)
        } else if !self.fee_goes_to_protocol() {
            Err(ErrorCode::Unauthorized)
        } else {
            Ok(())
        }
    }

    /// What exercising `option_amount` options at time `now` yields.
    pub open spec fn outcome(&self, option_amount: u64, now: i64) -> Result<
        (Seq<Instruction>, OptionExerciseEvent),
        ErrorCode,
    > {
        if now >= self.contract.expiry_ts {
            Err(ErrorCode::ContractExpired)
        } else if !self.payable(option_amount) {
            Err(ErrorCode::ArithmeticOverflow)
        } else if !self.funded(option_amount) {
            Err(ErrorCode::InsufficientFunds)
        } else {
            let gross = exercise_amount(
                self.contract.is_put,
                self.contract.strike,
                option_amount,
            ).unwrap();
            let fee = fee_of(gross as int) as u64;
            Ok(
                (
                    self.instructions(option_amount, (gross - fee) as u64, fee),
                    self.event(option_amount, now),
                ),
            )
        }
    }

    /// Exercise is allowed strictly before expiry, with the accounts the
    /// contract records, and with the fee going to the protocol's fee
    /// owner. The three are tested in this order.
    pub fn validate(&self, now: i64) -> (r: Result<(), ErrorCode>)
        ensures
            r == self.admission(now),
            now >= self.contract.expiry_ts ==> r == Err::<(), ErrorCode>(ErrorCode::ContractExpired),
            now < self.contract.expiry_ts && !self.accounts_match() ==> r == Err::<(), ErrorCode>(
                ErrorCode::KeyMismatch,
            ),
            now < self.contract.expiry_ts && self.accounts_match() && !self.fee_goes_to_protocol()
                ==> r == Err::<(), ErrorCode>(ErrorCode::Unauthorized),
            now < self.contract.expiry_ts && self.accounts_match() && self.fee_goes_to_protocol()
                ==> r == Ok::<(), ErrorCode>(()),
    {
        if !self.contract.active_at(now) {
            return Err(ErrorCode::ContractExpired);
        }
        let exercise_mint = self.contract.exercise_mint();
        let collateral_mint = self.contract.collateral_mint();
        if !(self.exercise_token_source.owner.equals(&self.exerciser_authority)
            && self.exercise_token_source.mint.equals(&exercise_mint) && self.option_mint.equals(
            &self.contract.option_mint,
        ) && self.option_token_source.owner.equals(&self.exerciser_authority)
            && self.option_token_source.mint.equals(&self.contract.option_mint)
            && self.writer_crate_token.equals(&self.contract.writer_crate)
            && self.crate_collateral_tokens.equals(&self.contract.crate_collateral_tokens)
            && self.crate_exercise_tokens.equals(&self.contract.crate_exercise_tokens)
            && self.collateral_token_destination.mint.equals(&collateral_mint)) {
            return Err(ErrorCode::KeyMismatch);
        }
        let owner = fee_owner();
        if !self.exercise_fee_destination.owner.equals(&owner) {
            return Err(ErrorCode::Unauthorized);
        }
        Ok(())
    }

    /// Exercises `option_amount` options at time `now`.
    ///
    /// Whether the accounts are the right ones is for `validate` to test,
    /// before this is called; the entry point `option_exercise` does both.
    ///
    /// Fails with `ContractExpired` at or after expiry, with
    /// `ArithmeticOverflow` where the payment or its fee cannot be
    /// computed, and with `InsufficientFunds` where the exerciser holds
    /// fewer options than are exercised or less than the payment.
    /// Otherwise it yields, in order: the payment of the net amount into
    /// the exercise pool, the payment of the fee, the burning of the
    /// options, and the withdrawal of as much collateral as options were
    /// exercised; and the record of the exercise.
    pub fn exercise(&self, option_amount: u64, now: i64) -> (r: Result<
        (Vec<Instruction>, OptionExerciseEvent),
        ErrorCode,
    >)
        ensures
            plan_of(r) == self.outcome(option_amount, now),
            r is Ok <==> now < self.contract.expiry_ts && self.payable(option_amount)
                && self.funded(option_amount),
    {
        if !self.contract.active_at(now) {
            return Err(ErrorCode::ContractExpired);
        }
        let gross = match self.contract.calculate_exercise_amount_for_options(option_amount) {
            Some(v) => v,
            None => return Err(ErrorCode::ArithmeticOverflow),
        };
        let split = match fee_split(gross) {
            Ok(s) => s,
            Err(e) => return Err(e),
        };
        if self.option_token_source.amount < option_amount || self.exercise_token_source.amount
            < gross {
            return Err(ErrorCode::InsufficientFunds);
        }
        let mut plan: Vec<Instruction> = Vec::new();
        plan.push(
            Instruction::Transfer {
                from: self.exercise_token_source.key,
                to: self.crate_exercise_tokens,
                authority: self.exerciser_authority,
                amount: split.net,
            },
        );
        plan.push(
            Instruction::Transfer {
                from: self.exercise_token_source.key,
                to: self.exercise_fee_destination.key,
                authority: self.exerciser_authority,
                amount: split.fee,
            },
        );
        plan.push(
            Instruction::Burn {
                mint: self.option_mint,
                from: self.option_token_source.key,
                authority: self.exerciser_authority,
                amount: option_amount,
            },
        );
        plan.push(
            withdraw_without_fee(
                self.writer_crate_token,
                self.crate_collateral_tokens,
                self.contract_key,
                self.collateral_token_destination.key,
                option_amount,
            ),
        );
        assert(plan@ =~= self.instructions(option_amount, split.net, split.fee));
        Ok(
            (
                plan,
                OptionExerciseEvent {
                    contract: self.contract_key,
                    exerciser: self.exerciser_authority,
                    option_amount,
                    timestamp: now,
                },
            ),
        )
    }
}

} // verus!
