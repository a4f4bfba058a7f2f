//! Redeeming writer tokens for a share of both pools.

use crate::accounts::{free_withdrawal, plan_of, withdraw_without_fee, Instruction, Mint, TokenAccount};
use crate::error::ErrorCode;
use crate::events::OptionRedeemEvent;
use crate::math::{proportional_share, share_of};
use crate::pubkey::Pubkey;
use crate::state::OptionsContract;
use vstd::prelude::*;

verus! {

/// Accounts for redeeming writer tokens.
#[derive(Clone, Copy, Debug, PartialEq, Eq)]
pub struct OptionRedeem {
    /// The authority of the writer token account.
    pub writer_authority: Pubkey,
    /// Address of the options contract.
    pub contract_key: Pubkey,
    /// The options contract.
    pub contract: OptionsContract,
    /// The writer's writer token account.
    pub writer_token_source: TokenAccount,
    /// The writer mint.
    pub writer_mint: Mint,
    /// The account the collateral share is sent to.
    pub collateral_token_destination: Pubkey,
    /// The account the share of the exercise proceeds is sent to.
    pub exercise_token_destination: Pubkey,
    /// The writer crate token.
    pub writer_crate_token: Pubkey,
    /// The crate's collateral tokens, which back the options.
    pub crate_collateral_tokens: TokenAccount,
    /// The crate's exercise tokens.
    pub crate_exercise_tokens: TokenAccount,
}

impl OptionRedeem {
    /// Whether the accounts presented are the writer's own and those the
    /// contract records.
    pub open spec fn accounts_match(&self) -> bool {
        &&& self.writer_authority == self.writer_token_source.owner
        &&& self.writer_token_source.mint == self.contract.writer_mint
        &&& self.writer_crate_token == self.contract.writer_crate
        &&& self.crate_collateral_tokens.key == self.contract.crate_collateral_tokens
        &&& self.crate_exercise_tokens.key == self.contract.crate_exercise_tokens
    }

    /// The share of the collateral pool that `writer_amount` claims.
    pub open spec fn collateral_share(&self, writer_amount: u64) -> int {
        share_of(
            self.crate_collateral_tokens.amount as int,
            writer_amount as int,
            self.writer_mint.supply as int,
        )
    }

    /// The share of the exercise-proceeds pool that `writer_amount` claims.
    pub open spec fn exercise_share(&self, writer_amount: u64) -> int {
        share_of(
            self.crate_exercise_tokens.amount as int,
            writer_amount as int,
            self.writer_mint.supply as int,
        )
    }

    /// The instructions of a redemption that pays out the two shares.
    pub open spec fn instructions(
        &self,
        writer_amount: u64,
        collateral_share: u64,
        exercise_share: u64,
    ) -> Seq<Instruction> {
        seq![
            Instruction::Burn {
                mint: self.writer_mint.key,
                from: self.writer_token_source.key,
                authority: self.writer_authority,
                amount: writer_amount,
            },
            free_withdrawal(
                self.writer_crate_token,
                self.crate_collateral_tokens.key,
                self.contract_key,
                self.collateral_token_destination,
                collateral_share,
            ),
            free_withdrawal(
                self.writer_crate_token,
                self.crate_exercise_tokens.key,
                self.contract_key,
                self.exercise_token_destination,
                exercise_share,
            ),
        ]
    }

    /// The record of a redemption.
    pub open spec fn event(&self, writer_amount: u64, now: i64) -> OptionRedeemEvent {
        OptionRedeemEvent {
            contract: self.contract_key,
            redeemer: self.writer_authority,
            writer_amount,
            timestamp: now,
        }
    }

    /// What validation answers at time `now`.
    pub open spec fn admission(&self, now: i64) -> Result<(), ErrorCode> {
        if now < self.contract.expiry_ts {
            Err(ErrorCode::ContractNotYetExpired)
        } else if !self.accounts_match() {
            Err(ErrorCode::KeyMismatch)
        } else {
            Ok(())
        }
    }

    /// What redeeming `writer_amount` writer tokens at time `now` yields.
    pub open spec fn outcome(&self, writer_amount: u64, now: i64) -> Result<
        (Seq<Instruction>, OptionRedeemEvent),
        ErrorCode,
    > {
        if now < self.contract.expiry_ts {
            Err(ErrorCode::ContractNotYetExpired)
        } else if self.writer_mint.supply == 0 {
            Err(ErrorCode::ZeroDenominator)
        } else if self.writer_token_source.amount < writer_amount {
            Err(ErrorCode::InsufficientFunds)
        } else if self.collateral_share(writer_amount) > u64::MAX || self.exercise_share(
            writer_amount,
        ) > u64::MAX {
            Err(ErrorCode::ArithmeticOverflow)
        } else {
            Ok(
                (
                    self.instructions(
                        writer_amount,
                        self.collateral_share(writer_amount) as u64,
                        self.exercise_share(writer_amount) as u64,
                    ),
                    self.event(writer_amount, now),
                ),
            )
        }
    }

    /// Redemption is allowed at or after expiry, with the accounts the
    /// contract records. Expiry is tested first.
    pub fn validate(&self, now: i64) -> (r: Result<(), ErrorCode>)
        ensures
            r == self.admission(now),
            now < self.contract.expiry_ts ==> r == Err::<(), ErrorCode>(
                ErrorCode::ContractNotYetExpired,
            ),
            now >= self.contract.expiry_ts && !self.accounts_match() ==> r == Err::<(), ErrorCode>(
                ErrorCode::KeyMismatch,
            ),
            now >= self.contract.expiry_ts && self.accounts_match() ==> r == Ok::<(), ErrorCode>(()),
    {
        if self.contract.active_at(now) {
            return Err(ErrorCode::ContractNotYetExpired);
        }
        if self.writer_authority.equals(&self.writer_token_source.owner)
            && self.writer_token_source.mint.equals(&self.contract.writer_mint)
            && self.writer_crate_token.equals(&self.contract.writer_crate)
            && self.crate_collateral_tokens.key.equals(&self.contract.crate_collateral_tokens)
            && self.crate_exercise_tokens.key.equals(&self.contract.crate_exercise_tokens) {
            Ok(())
        } else {
            Err(ErrorCode::KeyMismatch)
        }
    }

    /// Redeems `writer_amount` writer tokens at time `now`.
    ///
    /// Whether the accounts are the right ones is for `validate` to test,
    /// before this is called; the entry point `option_redeem` does both.
    ///
    /// Both shares are computed from the balances and the supply that the
    /// accounts hold as given: one snapshot for the whole operation.
    ///
    /// Fails with `ContractNotYetExpired` before expiry, with
    /// `ZeroDenominator` where no writer token is outstanding, with
    /// `InsufficientFunds` where the writer holds fewer writer tokens than
    /// are redeemed, and with `ArithmeticOverflow` where a share does not
    /// fit in 64 bits, in this order.
    /// Otherwise it yields, in order: the burning of the writer tokens, the
    /// withdrawal of the collateral share, and the withdrawal of the share
    /// of the exercise proceeds, each from its own pool; and the record of
    /// the redemption.
    pub fn redeem(&self, writer_amount: u64, now: i64) -> (r: Result<
        (Vec<Instruction>, OptionRedeemEvent),
        ErrorCode,
    >)
        ensures
            plan_of(r) == self.outcome(writer_amount, now),
            now >= self.contract.expiry_ts && self.writer_mint.supply == 0 ==> r is Err
                && r->Err_0 == ErrorCode::ZeroDenominator,
    {
        if self.contract.active_at(now) {
            return Err(ErrorCode::ContractNotYetExpired);
        }
        let supply = self.writer_mint.supply;
        if supply == 0 {
            return Err(ErrorCode::ZeroDenominator);
        }
        if self.writer_token_source.amount < writer_amount {
            return Err(ErrorCode::InsufficientFunds);
        }
        let collateral_amount = match proportional_share(
            self.crate_collateral_tokens.amount,
            writer_amount,
            supply,
        ) {
            Ok(v) => v,
            Err(e) => return Err(e),
        };
        let exercise_amount = match proportional_share(
            self.crate_exercise_tokens.amount,
            writer_amount,
            supply,
        ) {
            Ok(v) => v,
            Err(e) => return Err(e),
        };
        let mut plan: Vec<Instruction> = Vec::new();
        plan.push(
            Instruction::Burn {
                mint: self.writer_mint.key,
                from: self.writer_token_source.key,
                authority: self.writer_authority,
                amount: writer_amount,
            },
        );
        plan.push(
            withdraw_without_fee(
                self.writer_crate_token,
                self.crate_collateral_tokens.key,
                self.contract_key,
                self.collateral_token_destination,
                collateral_amount,
            ),
        );
        plan.push(
            withdraw_without_fee(
                self.writer_crate_token,
                self.crate_exercise_tokens.key,
                self.contract_key,
                self.exercise_token_destination,
                exercise_amount,
            ),
        );
        assert(plan@ =~= self.instructions(writer_amount, collateral_amount, exercise_amount));
        Ok(
            (
                plan,
                OptionRedeemEvent {
                    contract: self.contract_key,
                    redeemer: self.writer_authority,
                    writer_amount,
                    timestamp: now,
                },
            ),
        )
    }
}

} // verus!
