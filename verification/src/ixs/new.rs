//! Creating a contract.

use crate::accounts::{Instruction, Mint};
use crate::error::ErrorCode;
use crate::pubkey::{associated_token_address, get_associated_token_address, Pubkey};
use crate::state::OptionsContract;
use vstd::prelude::*;

verus! {

/// The crate that will hold a new contract's pools.
#[derive(Clone, Copy, Debug, PartialEq, Eq)]
pub struct WriterCrate {
    /// Mint of the crate token: the writer mint.
    pub crate_mint: Mint,
    /// Address of the crate token to be created.
    pub crate_token: Pubkey,
}

/// Accounts for creating a contract.
#[derive(Clone, Copy, Debug, PartialEq, Eq)]
pub struct NewContract {
    /// Address of the contract to be created.
    pub contract_key: Pubkey,
    /// Mint of the underlying asset.
    pub underlying_mint: Mint,
    /// Mint of the quote asset.
    pub quote_mint: Mint,
    /// The crate of the writer.
    pub writer_crate: WriterCrate,
    /// The mint of the option instrument.
    pub option_mint: Mint,
    /// Payer to fund accounts.
    pub payer: Pubkey,
}

/// Whether an authority is set, and set to `key`.
pub open spec fn held_by(authority: Option<Pubkey>, key: Pubkey) -> bool {
    authority == Some(key)
}

/// Tests whether an authority is set, and set to `key`.
pub fn is_held_by(authority: &Option<Pubkey>, key: &Pubkey) -> (r: bool)
    ensures
        r == held_by(*authority, *key),
{
    match authority {
        Some(a) => a.equals(key),
        None => false,
    }
}

impl NewContract {
    /// Whether the contract alone controls the option mint: it holds both
    /// the mint authority and the freeze authority.
    pub open spec fn controls_option_mint(&self) -> bool {
        held_by(self.option_mint.mint_authority, self.contract_key) && held_by(
            self.option_mint.freeze_authority,
            self.contract_key,
        )
    }

    /// What validation answers: the first creation condition that fails,
    /// in the order control of the option mint, its zero supply, distinct
    /// assets, the option mint's decimals, the writer mint's decimals.
    pub open spec fn admission(&self) -> Result<(), ErrorCode> {
        if !self.controls_option_mint() {
            Err(ErrorCode::KeyMismatch)
        } else if self.option_mint.supply != 0 {
            Err(ErrorCode::OptionMintMustHaveZeroSupply)
        } else if self.underlying_mint.key == self.quote_mint.key {
            Err(ErrorCode::UselessMints)
        } else if self.underlying_mint.decimals != self.option_mint.decimals {
            Err(ErrorCode::OptionDecimalMismatch)
        } else if self.underlying_mint.decimals != self.writer_crate.crate_mint.decimals {
            Err(ErrorCode::WriterDecimalMismatch)
        } else {
            Ok(())
        }
    }

    /// Whether a creation request is valid.
    pub open spec fn valid(&self) -> bool {
        &&& self.controls_option_mint()
        &&& self.option_mint.supply == 0
        &&& self.underlying_mint.key != self.quote_mint.key
        &&& self.underlying_mint.decimals == self.option_mint.decimals
        &&& self.underlying_mint.decimals == self.writer_crate.crate_mint.decimals
    }

    /// The record of a contract with the given terms on these accounts.
    /// The two pools are the crate's associated token accounts for the
    /// collateral and for the exercise payment.
    pub open spec fn satisfied_by(
        &self,
        contract: OptionsContract,
        strike: u64,
        expiry_ts: i64,
        is_put: bool,
        contract_bump: u8,
    ) -> bool {
        &&& contract.underlying_mint == self.underlying_mint.key
        &&& contract.quote_mint == self.quote_mint.key
        &&& contract.strike == strike
        &&& contract.expiry_ts == expiry_ts
        &&& contract.is_put == is_put
        &&& contract.bump == contract_bump
        &&& contract.writer_mint == self.writer_crate.crate_mint.key
        &&& contract.writer_crate == self.writer_crate.crate_token
        &&& associated_token_address(
            self.writer_crate.crate_token@,
            contract.spec_collateral_mint()@,
        ) == Some(contract.crate_collateral_tokens@)
        &&& associated_token_address(
            self.writer_crate.crate_token@,
            contract.spec_exercise_mint()@,
        ) == Some(contract.crate_exercise_tokens@)
        &&& contract.option_mint == self.option_mint.key
    }

    /// Whether the crate has a token account address for each of the two
    /// assets.
    pub open spec fn pools_exist(&self) -> bool {
        associated_token_address(self.writer_crate.crate_token@, self.underlying_mint.key@)
            is Some && associated_token_address(
            self.writer_crate.crate_token@,
            self.quote_mint.key@,
        ) is Some
    }

    /// The record of a contract with the given terms and pools.
    pub open spec fn record_of(
        &self,
        strike: u64,
        expiry_ts: i64,
        is_put: bool,
        contract_bump: u8,
        collateral_pool: Pubkey,
        exercise_pool: Pubkey,
    ) -> OptionsContract {
        OptionsContract {
            underlying_mint: self.underlying_mint.key,
            quote_mint: self.quote_mint.key,
            strike,
            expiry_ts,
            is_put,
            bump: contract_bump,
            writer_mint: self.writer_crate.crate_mint.key,
            writer_crate: self.writer_crate.crate_token,
            crate_collateral_tokens: collateral_pool,
            crate_exercise_tokens: exercise_pool,
            option_mint: self.option_mint.key,
        }
    }

    /// The opening of the writer crate: the contract may issue writer
    /// tokens and withdraw from the crate, and sets and receives its fees.
    pub open spec fn crate_opening(&self, crate_bump: u8) -> Instruction {
        Instruction::NewCrate {
            crate_mint: self.writer_crate.crate_mint.key,
            crate_token: self.writer_crate.crate_token,
            issue_authority: self.contract_key,
            withdraw_authority: self.contract_key,
            fee_to_setter: self.contract_key,
            fee_setter_authority: self.contract_key,
            author_fee_to: self.contract_key,
            payer: self.payer,
            bump: crate_bump,
        }
    }

    /// A contract may be created where it alone controls the option mint,
    /// no option is outstanding, the two assets differ, and the option and
    /// writer mints have the underlying's decimals.
    pub fn validate(&self) -> (r: Result<(), ErrorCode>)
        ensures
            r == self.admission(),
            r is Ok <==> self.valid(),
    {
        if !(is_held_by(&self.option_mint.mint_authority, &self.contract_key) && is_held_by(
            &self.option_mint.freeze_authority,
            &self.contract_key,
        )) {
            return Err(ErrorCode::KeyMismatch);
        }
        if self.option_mint.supply != 0 {
            return Err(ErrorCode::OptionMintMustHaveZeroSupply);
        }
        if self.underlying_mint.key.equals(&self.quote_mint.key) {
            return Err(ErrorCode::UselessMints);
        }
        if self.underlying_mint.decimals != self.option_mint.decimals {
            return Err(ErrorCode::OptionDecimalMismatch);
        }
        if self.underlying_mint.decimals != self.writer_crate.crate_mint.decimals {
            return Err(ErrorCode::WriterDecimalMismatch);
        }
        Ok(())
    }

    /// Writes the record of a contract with the given terms, whose pools
    /// are the two token accounts given.
    pub fn record(
        &self,
        strike: u64,
        expiry_ts: i64,
        is_put: bool,
        contract_bump: u8,
        collateral_pool: Pubkey,
        exercise_pool: Pubkey,
    ) -> (r: OptionsContract)
        ensures
            r == self.record_of(
                strike,
                expiry_ts,
                is_put,
                contract_bump,
                collateral_pool,
                exercise_pool,
            ),
    {
        OptionsContract {
            underlying_mint: self.underlying_mint.key,
            quote_mint: self.quote_mint.key,
            strike,
            expiry_ts,
            is_put,
            bump: contract_bump,
            writer_mint: self.writer_crate.crate_mint.key,
            writer_crate: self.writer_crate.crate_token,
            crate_collateral_tokens: collateral_pool,
            crate_exercise_tokens: exercise_pool,
            option_mint: self.option_mint.key,
        }
    }

    /// Creates a new contract with the given terms.
    ///
    /// Whether the request is valid is for `validate` to test, before this
    /// is called; the entry point `new_contract` does both.
    ///
    /// Fails with `PoolAddressNotFound` where the crate has no token
    /// account address for one of the two assets. Otherwise it yields the
    /// contract's record and the instruction that opens the writer crate,
    /// which holds all collateral and proceeds.
    pub fn new_contract(
        &self,
        strike: u64,
        expiry_ts: i64,
        is_put: bool,
        contract_bump: u8,
        crate_bump: u8,
    ) -> (r: Result<(OptionsContract, Instruction), ErrorCode>)
        ensures
            r is Ok <==> self.pools_exist(),
            r matches Err(code) ==> code == ErrorCode::PoolAddressNotFound,
            r matches Ok(created) ==> self.satisfied_by(
                created.0,
                strike,
                expiry_ts,
                is_put,
                contract_bump,
            ) && created.1 == self.crate_opening(crate_bump),
    {
        let opening = Instruction::NewCrate {
            crate_mint: self.writer_crate.crate_mint.key,
            crate_token: self.writer_crate.crate_token,
            issue_authority: self.contract_key,
            withdraw_authority: self.contract_key,
            fee_to_setter: self.contract_key,
            fee_setter_authority: self.contract_key,
            author_fee_to: self.contract_key,
            payer: self.payer,
            bump: crate_bump,
        };
        let (collateral_mint, exercise_mint) = if is_put {
            (self.quote_mint.key, self.underlying_mint.key)
        } else {
            (self.underlying_mint.key, self.quote_mint.key)
        };
        let collateral_pool = match get_associated_token_address(
            &self.writer_crate.crate_token,
            &collateral_mint,
        ) {
            Some(address) => address,
            None => return Err(ErrorCode::PoolAddressNotFound),
        };
        let exercise_pool = match get_associated_token_address(
            &self.writer_crate.crate_token,
            &exercise_mint,
        ) {
            Some(address) => address,
            None => return Err(ErrorCode::PoolAddressNotFound),
        };
        Ok(
            (
                self.record(
                    strike,
                    expiry_ts,
                    is_put,
                    contract_bump,
                    collateral_pool,
                    exercise_pool,
                ),
                opening,
            ),
        )
    }
}

} // verus!
