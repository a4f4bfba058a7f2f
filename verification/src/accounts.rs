//! Plain pictures of the accounts an operation is given, and the
//! instructions it hands to the token program and the vault.

use crate::error::ErrorCode;
use crate::pubkey::Pubkey;
use vstd::prelude::*;

verus! {

/// A token account as an operation sees it.
#[derive(Clone, Copy, Debug, PartialEq, Eq)]
pub struct TokenAccount {
    /// Address of the account.
    pub key: Pubkey,
    /// The mint of the tokens it holds.
    pub mint: Pubkey,
    /// Who may spend from it.
    pub owner: Pubkey,
    /// How many tokens it holds.
    pub amount: u64,
}

/// A mint as an operation sees it.
#[derive(Clone, Copy, Debug, PartialEq, Eq)]
pub struct Mint {
    /// Address of the mint.
    pub key: Pubkey,
    /// Who may mint, if anyone.
    pub mint_authority: Option<Pubkey>,
    /// Tokens outstanding.
    pub supply: u64,
    /// Digits after the decimal point.
    pub decimals: u8,
    /// Who may freeze accounts, if anyone.
    pub freeze_authority: Option<Pubkey>,
}

/// One balance-changing call to the token program or to the vault.
///
/// An operation yields its instructions in the order in which they are to
/// be carried out; either all of them take effect or none does.
#[derive(Clone, Copy, Debug, PartialEq, Eq)]
pub enum Instruction {
    /// Move `amount` tokens from one account to another.
    Transfer { from: Pubkey, to: Pubkey, authority: Pubkey, amount: u64 },
    /// Mint `amount` new tokens into `to`.
    MintTo { mint: Pubkey, to: Pubkey, authority: Pubkey, amount: u64 },
    /// Burn `amount` tokens out of `from`.
    Burn { mint: Pubkey, from: Pubkey, authority: Pubkey, amount: u64 },
    /// Have the vault issue `amount` crate tokens to `mint_destination`.
    Issue {
        crate_token: Pubkey,
        crate_mint: Pubkey,
        issue_authority: Pubkey,
        mint_destination: Pubkey,
        author_fee_destination: Pubkey,
        protocol_fee_destination: Pubkey,
        amount: u64,
    },
    /// Have the vault release `amount` tokens of `crate_underlying` to
    /// `withdraw_destination`. Fees are waived where both fee
    /// destinations are the withdraw destination itself.
    Withdraw {
        crate_token: Pubkey,
        crate_underlying: Pubkey,
        withdraw_authority: Pubkey,
        withdraw_destination: Pubkey,
        author_fee_destination: Pubkey,
        protocol_fee_destination: Pubkey,
        amount: u64,
    },
    /// Have the vault open a new crate.
    NewCrate {
        crate_mint: Pubkey,
        crate_token: Pubkey,
        issue_authority: Pubkey,
        withdraw_authority: Pubkey,
        fee_to_setter: Pubkey,
        fee_setter_authority: Pubkey,
        author_fee_to: Pubkey,
        payer: Pubkey,
        bump: u8,
    },
}

/// What an operation hands back, with its instructions as a sequence: the
/// instructions in order and the record to emit, or the reason for refusal.
pub open spec fn plan_of<E>(r: Result<(Vec<Instruction>, E), ErrorCode>) -> Result<
    (Seq<Instruction>, E),
    ErrorCode,
> {
    match r {
        Ok((plan, event)) => Ok((plan@, event)),
        Err(code) => Err(code),
    }
}

/// A withdrawal from the vault that charges no fee: both fee destinations
/// are the destination of the withdrawal.
pub open spec fn free_withdrawal(
    crate_token: Pubkey,
    crate_underlying: Pubkey,
    authority: Pubkey,
    destination: Pubkey,
    amount: u64,
) -> Instruction {
    Instruction::Withdraw {
        crate_token,
        crate_underlying,
        withdraw_authority: authority,
        withdraw_destination: destination,
        author_fee_destination: destination,
        protocol_fee_destination: destination,
        amount,
    }
}

/// Builds a withdrawal that charges no fee.
pub fn withdraw_without_fee(
    crate_token: Pubkey,
    crate_underlying: Pubkey,
    authority: Pubkey,
    destination: Pubkey,
    amount: u64,
) -> (r: Instruction)
    ensures
        r == free_withdrawal(crate_token, crate_underlying, authority, destination, amount),
{
    Instruction::Withdraw {
        crate_token,
        crate_underlying,
        withdraw_authority: authority,
        withdraw_destination: destination,
        author_fee_destination: destination,
        protocol_fee_destination: destination,
        amount,
    }
}

} // verus!
