//! Writing options: locking collateral against new writer and option tokens.

use crate::accounts::{plan_of, Instruction, TokenAccount};
use crate::error::ErrorCode;
use crate::events::OptionWriteEvent;
use crate::pubkey::Pubkey;
use crate::state::OptionsContract;
use vstd::prelude::*;

verus! {

/// Accounts for writing options.
#[derive(Clone, Copy, Debug, PartialEq, Eq)]
pub struct OptionWrite {
    /// The authority of the funding account.
    pub writer_authority: Pubkey,
    /// Address of the options contract.
    pub contract_key: Pubkey,
    /// The options contract.
    pub contract: OptionsContract,
    /// The writer's collateral tokens used to fund writing the options.
    pub user_collateral_funding_tokens: TokenAccount,
    /// The option token account to send to.
    pub option_token_destination: Pubkey,
    /// The crate's collateral tokens, which back the options.
    pub crate_collateral_tokens: Pubkey,
    /// The writer token account to send to.
    pub writer_token_destination: Pubkey,
    /// The writer crate token.
    pub writer_crate_token: Pubkey,
    /// The writer mint.
    pub writer_mint: Pubkey,
    /// The option mint.
    pub option_mint: Pubkey,
}

impl OptionWrite {
    /// Whether the accounts presented are those the contract records, and
    /// the funding account is the writer's own.
    pub open spec fn accounts_match(&self) -> bool {
        &&& self.writer_authority == self.user_collateral_funding_tokens.owner
        &&& self.crate_collateral_tokens == self.contract.crate_collateral_tokens
        &&& self.writer_crate_token == self.contract.writer_crate
        &&& self.writer_mint == self.contract.writer_mint
        &&& self.option_mint == self.contract.option_mint
    }

    /// The transfer of the collateral into the pool.
    pub open spec fn payment(&self, write_amount: u64) -> Instruction {
        Instruction::Transfer {
            from: self.user_collateral_funding_tokens.key,
            to: self.crate_collateral_tokens,
            authority: self.writer_authority,
            amount: write_amount,
        }
    }

    /// The issue of the writer tokens.
    pub open spec fn writer_issue(&self, write_amount: u64) -> Instruction {
        Instruction::Issue {
            crate_token: self.writer_crate_token,
            crate_mint: self.writer_mint,
            issue_authority: self.contract_key,
            mint_destination: self.writer_token_destination,
            author_fee_destination: self.writer_token_destination,
            protocol_fee_destination: self.writer_token_destination,
            amount: write_amount,
        }
    }

    /// The minting of the options.
    pub open spec fn option_minting(&self, write_amount: u64) -> Instruction {
        Instruction::MintTo {
            mint: self.option_mint,
            to: self.option_token_destination,
            authority: self.contract_key,
            amount: write_amount,
        }
    }

    /// The record of a write.
    pub open spec fn event(&self, write_amount: u64, now: i64) -> OptionWriteEvent {
        OptionWriteEvent {
            contract: self.contract_key,
            writer: self.writer_authority,
            write_amount,
            timestamp: now,
        }
    }

    /// What validation answers at time `now`.
    pub open spec fn admission(&self, now: i64) -> Result<(), ErrorCode> {
        if now >= self.contract.expiry_ts {
            Err(ErrorCode::ContractExpired)
        } else if !self.accounts_match() {
            Err(ErrorCode::KeyMismatch)
        } else {
            Ok(())
        }
    }

    /// What writing `write_amount` options at time `now` yields.
    pub open spec fn outcome(&self, write_amount: u64, now: i64) -> Result<
        (Seq<Instruction>, OptionWriteEvent),
        ErrorCode,
    > {
        if now >= self.contract.expiry_ts {
            Err(ErrorCode::ContractExpired)
        } else if self.user_collateral_funding_tokens.amount < write_amount {
            Err(ErrorCode::InsufficientCollateral)
        } else {
            Ok(
                (
                    seq![
                        self.payment(write_amount),
                        self.writer_issue(write_amount),
                        self.option_minting(write_amount),
                    ],
                    self.event(write_amount, now),
                ),
            )
        }
    }

    /// Writing is allowed strictly before expiry, with the accounts the
    /// contract records. Expiry is tested first.
    pub fn validate(&self, now: i64) -> (r: Result<(), ErrorCode>)
        ensures
            r == self.admission(now),
            now >= self.contract.expiry_ts ==> r == Err::<(), ErrorCode>(ErrorCode::ContractExpired),
            now < self.contract.expiry_ts && !self.accounts_match() ==> r == Err::<(), ErrorCode>(
                ErrorCode::KeyMismatch,
            ),
            now < self.contract.expiry_ts && self.accounts_match() ==> r == Ok::<(), ErrorCode>(()),
    {
        if !self.contract.active_at(now) {
            return Err(ErrorCode::ContractExpired);
        }
        if self.writer_authority.equals(&self.user_collateral_funding_tokens.owner)
            && self.crate_collateral_tokens.equals(&self.contract.crate_collateral_tokens)
            && self.writer_crate_token.equals(&self.contract.writer_crate)
            && self.writer_mint.equals(&self.contract.writer_mint)
            && self.option_mint.equals(&self.contract.option_mint) {
            Ok(())
        } else {
            Err(ErrorCode::KeyMismatch)
        }
    }

    /// Writes `write_amount` options at time `now`.
    ///
    /// Whether the accounts are the right ones is for `validate` to test,
    /// before this is called; the entry point `option_write` does both.
    ///
    /// Fails with `ContractExpired` at or after expiry, and with
    /// `InsufficientCollateral` where the funding account holds less than
    /// `write_amount`.
    /// Otherwise it yields, in order: the payment of the collateral into
    /// the pool, the issue of as many writer tokens, and the minting of as
    /// many options; and the record of the write.
    pub fn write(&self, write_amount: u64, now: i64) -> (r: Result<
        (Vec<Instruction>, OptionWriteEvent),
        ErrorCode,
    >)
        ensures
            plan_of(r) == self.outcome(write_amount, now),
            r is Ok <==> now < self.contract.expiry_ts
                && self.user_collateral_funding_tokens.amount >= write_amount,
    {
        if !self.contract.active_at(now) {
            return Err(ErrorCode::ContractExpired);
        }
        if self.user_collateral_funding_tokens.amount < write_amount {
            return Err(ErrorCode::InsufficientCollateral);
        }
        let mut plan: Vec<Instruction> = Vec::new();
        plan.push(self.pull_payment(write_amount));
        plan.push(self.issue_writer_tokens(write_amount));
        plan.push(self.mint_options(write_amount));
        assert(plan@ =~= seq![
            self.payment(write_amount),
            self.writer_issue(write_amount),
            self.option_minting(write_amount),
        ]);
        Ok(
            (
                plan,
                OptionWriteEvent {
                    contract: self.contract_key,
                    writer: self.writer_authority,
                    write_amount,
                    timestamp: now,
                },
            ),
        )
    }

    /// Transfer the writer's tokens to the crate.
    pub fn pull_payment(&self, write_amount: u64) -> (r: Instruction)
        ensures
            r == self.payment(write_amount),
    {
        Instruction::Transfer {
            from: self.user_collateral_funding_tokens.key,
            to: self.crate_collateral_tokens,
            authority: self.writer_authority,
            amount: write_amount,
        }
    }

    /// Issue the writer tokens. The crate charges no fee on issue, so the
    /// fee destinations are the destination itself.
    pub fn issue_writer_tokens(&self, write_amount: u64) -> (r: Instruction)
        ensures
            r == self.writer_issue(write_amount),
    {
        Instruction::Issue {
            crate_token: self.writer_crate_token,
            crate_mint: self.writer_mint,
            issue_authority: self.contract_key,
            mint_destination: self.writer_token_destination,
            author_fee_destination: self.writer_token_destination,
            protocol_fee_destination: self.writer_token_destination,
            amount: write_amount,
        }
    }

    /// Mint `write_amount` options.
    pub fn mint_options(&self, write_amount: u64) -> (r: Instruction)
        ensures
            r == self.option_minting(write_amount),
    {
        Instruction::MintTo {
            mint: self.option_mint,
            to: self.option_token_destination,
            authority: self.contract_key,
            amount: write_amount,
        }
    }
}

} // verus!
