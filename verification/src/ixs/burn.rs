//! Burning matched writer and option tokens to take the collateral back.

use crate::accounts::{free_withdrawal, plan_of, withdraw_without_fee, Instruction, TokenAccount};
use crate::error::ErrorCode;
use crate::events::OptionBurnEvent;
use crate::pubkey::Pubkey;
use crate::state::OptionsContract;
use vstd::prelude::*;

verus! {

/// Accounts for burning matched writer and option tokens.
#[derive(Clone, Copy, Debug, PartialEq, Eq)]
pub struct OptionBurn {
    /// The authority of the two token accounts.
    pub burner_authority: Pubkey,
    /// Address of the options contract.
    pub contract_key: Pubkey,
    /// The options contract.
    pub contract: OptionsContract,
    /// The writer mint.
    pub writer_mint: Pubkey,
    /// The option mint.
    pub option_mint: Pubkey,
    /// The burner's writer tokens.
    pub writer_token_source: TokenAccount,
    /// The burner's option tokens.
    pub option_token_source: TokenAccount,
    /// The crate's collateral tokens, which back the options.
    pub crate_collateral_tokens: Pubkey,
    /// The account the collateral is sent to.
    pub collateral_token_destination: Pubkey,
    /// The writer crate token.
    pub writer_crate_token: Pubkey,
}

impl OptionBurn {
    /// Whether the accounts presented are the burner's own and those the
    /// contract records.
    pub open spec fn accounts_match(&self) -> bool {
        &&& self.option_mint == self.contract.option_mint
        &&& self.writer_mint == self.contract.writer_mint
        &&& self.writer_token_source.mint == self.contract.writer_mint
        &&& self.writer_token_source.owner == self.burner_authority
        &&& self.option_token_source.mint == self.contract.option_mint
        &&& self.option_token_source.owner == self.burner_authority
        &&& self.writer_crate_token == self.contract.writer_crate
        &&& self.crate_collateral_tokens == self.contract.crate_collateral_tokens
    }

    /// Whether both token accounts hold at least `burn_amount`.
    pub open spec fn funded(&self, burn_amount: u64) -> bool {
        burn_amount <= self.writer_token_source.amount && burn_amount
            <= self.option_token_source.amount
    }

    /// The instructions of a burn.
    pub open spec fn instructions(&self, burn_amount: u64) -> Seq<Instruction> {
        seq![
            Instruction::Burn {
                mint: self.writer_mint,
                from: self.writer_token_source.key,
                authority: self.burner_authority,
                amount: burn_amount,
            },
            Instruction::Burn {
                mint: self.option_mint,
                from: self.option_token_source.key,
                authority: self.burner_authority,
                amount: burn_amount,
            },
            free_withdrawal(
                self.writer_crate_token,
                self.crate_collateral_tokens,
                self.contract_key,
                self.collateral_token_destination,
                burn_amount,
            ),
        ]
    }

    /// The record of a burn.
    pub open spec fn event(&self, burn_amount: u64, now: i64) -> OptionBurnEvent {
        OptionBurnEvent {
            contract: self.contract_key,
            burner: self.burner_authority,
            burn_amount,
            timestamp: now,
        }
    }

    /// What validation answers.
    pub open spec fn admission(&self) -> Result<(), ErrorCode> {
        if !self.accounts_match() {
            Err(ErrorCode::KeyMismatch)
        } else {
            Ok(())
        }
    }

    /// What burning `burn_amount` of each token at time `now` yields.
    pub open spec fn outcome(&self, burn_amount: u64, now: i64) -> Result<
        (Seq<Instruction>, Option<OptionBurnEvent>),
        ErrorCode,
    > {
        if burn_amount == 0 {
            Ok((Seq::<Instruction>::empty(), None::<OptionBurnEvent>))
        } else if !self.funded(burn_amount) {
            Err(ErrorCode::InsufficientFunds)
        } else {
            Ok((self.instructions(burn_amount), Some(self.event(burn_amount, now))))
        }
    }

    /// Burning is allowed at any time, with the accounts the contract
    /// records.
    pub fn validate(&self) -> (r: Result<(), ErrorCode>)
        ensures
            r == self.admission(),
            self.accounts_match() ==> r == Ok::<(), ErrorCode>(()),
            !self.accounts_match() ==> r == Err::<(), ErrorCode>(ErrorCode::KeyMismatch),
    {
        if self.option_mint.equals(&self.contract.option_mint) && self.writer_mint.equals(
            &self.contract.writer_mint,
        ) && self.writer_token_source.mint.equals(&self.contract.writer_mint)
            && self.writer_token_source.owner.equals(&self.burner_authority)
            && self.option_token_source.mint.equals(&self.contract.option_mint)
            && self.option_token_source.owner.equals(&self.burner_authority)
            && self.writer_crate_token.equals(&self.contract.writer_crate)
            && self.crate_collateral_tokens.equals(&self.contract.crate_collateral_tokens) {
            Ok(())
        } else {
            Err(ErrorCode::KeyMismatch)
        }
    }

    /// Burns `burn_amount` writer tokens and as many option tokens at time
    /// `now`, in case one no longer wants exposure.
    ///
    /// The accounts are for `validate` to test, before this is called; the
    /// entry point `option_burn` does both.
    ///
    /// Burning nothing succeeds with no instruction and no record. Burning
    /// more than either account holds fails with `InsufficientFunds`.
    /// Otherwise it yields, in order: the burning of the writer tokens, the
    /// burning of the option tokens, and the withdrawal of as much
    /// collateral, free of fees; and the record of the burn.
    pub fn burn(&self, burn_amount: u64, now: i64) -> (r: Result<
        (Vec<Instruction>, Option<OptionBurnEvent>),
        ErrorCode,
    >)
        ensures
            plan_of(r) == self.outcome(burn_amount, now),
            r is Ok <==> burn_amount == 0 || self.funded(burn_amount),
    {
        let mut plan: Vec<Instruction> = Vec::new();
        if burn_amount == 0 {
            return Ok((plan, None));
        }
        if burn_amount > self.writer_token_source.amount {
            return Err(ErrorCode::InsufficientFunds);
        }
        if burn_amount > self.option_token_source.amount {
            return Err(ErrorCode::InsufficientFunds);
        }
        plan.push(
            Instruction::Burn {
                mint: self.writer_mint,
                from: self.writer_token_source.key,
                authority: self.burner_authority,
                amount: burn_amount,
            },
        );
        plan.push(
            Instruction::Burn {
                mint: self.option_mint,
                from: self.option_token_source.key,
                authority: self.burner_authority,
                amount: burn_amount,
            },
        );
        plan.push(
            withdraw_without_fee(
                self.writer_crate_token,
                self.crate_collateral_tokens,
                self.contract_key,
                self.collateral_token_destination,
                burn_amount,
            ),
        );
        assert(plan@ =~= self.instructions(burn_amount));
        Ok(
            (
                plan,
                Some(
                    OptionBurnEvent {
                        contract: self.contract_key,
                        burner: self.burner_authority,
                        burn_amount,
                        timestamp: now,
                    },
                ),
            ),
        )
    }
}

} // verus!
