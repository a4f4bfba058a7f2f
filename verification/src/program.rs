//! The entry points: each validates the accounts, then carries out the
//! operation.

use crate::accounts::{plan_of, Instruction};
use crate::error::ErrorCode;
use crate::events::{OptionBurnEvent, OptionExerciseEvent, OptionRedeemEvent, OptionWriteEvent};
use crate::ixs::burn::OptionBurn;
use crate::ixs::exercise::OptionExercise;
use crate::ixs::new::NewContract;
use crate::ixs::redeem::OptionRedeem;
use crate::ixs::write::OptionWrite;
use crate::ledger::Ledger;
use vstd::prelude::*;

verus! {

/// Defines a new contract.
///
/// A contract is defined by the mint of the underlying, the mint of the
/// quote, the strike, the expiry and whether it is a put. Anyone can
/// create one.
///
/// Every valid request succeeds, provided the crate has a token account
/// address for each of the two assets. It yields the books of the new
/// contract, which hold its record, two empty pools and no outstanding
/// writer token or option, and the instruction that opens the writer
/// crate. An invalid request is refused with the first creation condition
/// that fails.
pub fn new_contract(
    accounts: &NewContract,
    strike: u64,
    expiry_ts: i64,
    is_put: bool,
    contract_bump: u8,
    crate_bump: u8,
) -> (r: Result<(Ledger, Instruction), ErrorCode>)
    ensures
        r is Ok <==> accounts.valid() && accounts.pools_exist(),
        !accounts.valid() ==> r is Err && accounts.admission() == Err::<(), ErrorCode>(r->Err_0),
        accounts.valid() && !accounts.pools_exist() ==> r is Err && r->Err_0
            == ErrorCode::PoolAddressNotFound,
        r matches Ok(created) ==> {
            &&& accounts.satisfied_by(created.0.contract, strike, expiry_ts, is_put, contract_bump)
            &&& created.0.collateral_pool == 0
            &&& created.0.exercise_pool == 0
            &&& created.0.writer_supply == 0
            &&& created.0.option_supply == 0
            &&& created.0.fees_collected == 0
            &&& created.1 == accounts.crate_opening(crate_bump)
        },
{
    match accounts.validate() {
        Ok(()) => {},
        Err(code) => return Err(code),
    }
    match accounts.new_contract(strike, expiry_ts, is_put, contract_bump, crate_bump) {
        Ok((contract, opening)) => Ok((Ledger::new(contract), opening)),
        Err(code) => Err(code),
    }
}

/// Burns matched writer and option tokens at time `now`: refused as
/// validation refuses, else as the burn answers.
pub fn option_burn(accounts: &OptionBurn, burn_amount: u64, now: i64) -> (r: Result<
    (Vec<Instruction>, Option<OptionBurnEvent>),
    ErrorCode,
>)
    ensures
        plan_of(r) == (match accounts.admission() {
            Err(code) => Err(code),
            Ok(_) => accounts.outcome(burn_amount, now),
        }),
{
    match accounts.validate() {
        Ok(()) => accounts.burn(burn_amount, now),
        Err(code) => Err(code),
    }
}

/// Writes new options at time `now`: refused as validation refuses, else
/// as the write answers.
pub fn option_write(accounts: &OptionWrite, write_amount: u64, now: i64) -> (r: Result<
    (Vec<Instruction>, OptionWriteEvent),
    ErrorCode,
>)
    ensures
        plan_of(r) == (match accounts.admission(now) {
            Err(code) => Err(code),
            Ok(_) => accounts.outcome(write_amount, now),
        }),
        now >= accounts.contract.expiry_ts ==> r is Err && r->Err_0 == ErrorCode::ContractExpired,
{
    match accounts.validate(now) {
        Ok(()) => accounts.write(write_amount, now),
        Err(code) => Err(code),
    }
}

/// Exercises options at time `now`: refused as validation refuses, else
/// as the exercise answers.
pub fn option_exercise(accounts: &OptionExercise, option_amount: u64, now: i64) -> (r: Result<
    (Vec<Instruction>, OptionExerciseEvent),
    ErrorCode,
>)
    ensures
        plan_of(r) == (match accounts.admission(now) {
            Err(code) => Err(code),
            Ok(_) => accounts.outcome(option_amount, now),
        }),
        now >= accounts.contract.expiry_ts ==> r is Err && r->Err_0 == ErrorCode::ContractExpired,
        r is Ok <==> now < accounts.contract.expiry_ts && accounts.accounts_match()
            && accounts.fee_goes_to_protocol() && accounts.payable(option_amount)
            && accounts.funded(option_amount),
{
    match accounts.validate(now) {
        Ok(()) => accounts.exercise(option_amount, now),
        Err(code) => Err(code),
    }
}

/// Redeems writer tokens for the collateral and the exercise proceeds at
/// time `now`: refused as validation refuses, else as the redemption
/// answers.
pub fn option_redeem(accounts: &OptionRedeem, writer_amount: u64, now: i64) -> (r: Result<
    (Vec<Instruction>, OptionRedeemEvent),
    ErrorCode,
>)
    ensures
        plan_of(r) == (match accounts.admission(now) {
            Err(code) => Err(code),
            Ok(_) => accounts.outcome(writer_amount, now),
        }),
        now < accounts.contract.expiry_ts ==> r is Err && r->Err_0
            == ErrorCode::ContractNotYetExpired,
        r is Ok <==> now >= accounts.contract.expiry_ts && accounts.accounts_match()
            && accounts.outcome(writer_amount, now) is Ok,
{
    match accounts.validate(now) {
        Ok(()) => accounts.redeem(writer_amount, now),
        Err(code) => Err(code),
    }
}

} // verus!
