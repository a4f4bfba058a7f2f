//! Settlement accounting for collateral-backed American options.
//!
//! A contract fixes an underlying asset, a quote asset, a strike and an
//! expiry. Writers lock collateral and receive writer and option claims;
//! option holders exercise before expiry; writers redeem after it. This
//! library decides what each operation moves and when it is allowed.

pub mod accounts;
pub mod error;
pub mod events;
pub mod ixs;
pub mod ledger;
pub mod math;
pub mod program;
pub mod pubkey;
pub mod state;

pub use accounts::{Instruction, Mint, TokenAccount};
pub use error::{ErrorCode, ErrorKind};
pub use events::{OptionBurnEvent, OptionExerciseEvent, OptionRedeemEvent, OptionWriteEvent};
pub use ixs::burn::OptionBurn;
pub use ixs::exercise::OptionExercise;
pub use ixs::new::{NewContract, WriterCrate};
pub use ixs::redeem::OptionRedeem;
pub use ixs::write::OptionWrite;
pub use ledger::{Holder, Ledger, Operation, Receipt};
pub use math::{fee_split, proportional_share, FeeSplit, EXERCISE_FEE_KBPS, FEE_DENOMINATOR};
pub use program::{new_contract, option_burn, option_exercise, option_redeem, option_write};
pub use pubkey::{
    associated_token_program_id, fee_owner, get_associated_token_address, program_id,
    token_program_id, Pubkey, FEE_OWNER_BUMP,
};
pub use state::{OptionsContract, STRIKE_PRICE_UNITS};
