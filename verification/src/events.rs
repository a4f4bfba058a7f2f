//! Records of what happened, for observers.

use crate::pubkey::Pubkey;
use vstd::prelude::*;

verus! {

/// Recorded when options are written.
#[derive(Clone, Copy, Debug, PartialEq, Eq)]
pub struct OptionWriteEvent {
    /// The contract.
    pub contract: Pubkey,
    /// The writer of the options.
    pub writer: Pubkey,
    /// The amount of options written.
    pub write_amount: u64,
    /// Timestamp of the event.
    pub timestamp: i64,
}

/// Recorded when writer tokens are redeemed.
#[derive(Clone, Copy, Debug, PartialEq, Eq)]
pub struct OptionRedeemEvent {
    /// The contract.
    pub contract: Pubkey,
    /// The redeemer of the writer tokens.
    pub redeemer: Pubkey,
    /// The amount of writer tokens redeemed.
    pub writer_amount: u64,
    /// Timestamp of the event.
    pub timestamp: i64,
}

/// Recorded when options are exercised.
#[derive(Clone, Copy, Debug, PartialEq, Eq)]
pub struct OptionExerciseEvent {
    /// The contract.
    pub contract: Pubkey,
    /// The account that exercised the options.
    pub exerciser: Pubkey,
    /// The amount of options exercised.
    pub option_amount: u64,
    /// Timestamp of the event.
    pub timestamp: i64,
}

/// Recorded when matched writer and option tokens are burned.
#[derive(Clone, Copy, Debug, PartialEq, Eq)]
pub struct OptionBurnEvent {
    /// The contract.
    pub contract: Pubkey,
    /// The holder of both tokens.
    pub burner: Pubkey,
    /// The amount of each token burned.
    pub burn_amount: u64,
    /// Timestamp of the event.
    pub timestamp: i64,
}

} // verus!
