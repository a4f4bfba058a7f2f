//! Error codes.

use vstd::prelude::*;

verus! {

/// Why an operation was refused. A refused operation has no effect.
#[derive(Clone, Copy, Debug, PartialEq, Eq, Structural)]
pub enum ErrorCode {
    /// A presented account is not the one the operation is entitled to use.
    Unauthorized,
    /// The funding account holds less collateral than is to be written.
    InsufficientCollateral,
    /// Writing or exercising at or after expiry.
    ContractExpired,
    /// Redeeming before expiry.
    ContractNotYetExpired,
    /// A call option mint must have the same decimals as the underlying.
    CallDecimalMismatch,
    /// A put option mint must have the same decimals as the quote.
    PutDecimalMismatch,
    /// The underlying and quote mints should not match.
    UselessMints,
    /// Option mint must have zero supply.
    OptionMintMustHaveZeroSupply,
    /// The option mint's decimals differ from the underlying's.
    OptionDecimalMismatch,
    /// The writer mint's decimals differ from the underlying's.
    WriterDecimalMismatch,
    /// A presented account differs from the one the contract records.
    KeyMismatch,
    /// An amount cannot be represented.
    ArithmeticOverflow,
    /// A balance is lower than the amount to be taken from it.
    InsufficientFunds,
    /// Redeeming while no writer claim is outstanding.
    ZeroDenominator,
    /// The crate has no token account address for one of the two assets.
    PoolAddressNotFound,
}

/// The five kinds of failure.
#[derive(Clone, Copy, Debug, PartialEq, Eq, Structural)]
pub enum ErrorKind {
    /// An amount cannot be represented, even in widened precision.
    ArithmeticOverflow,
    /// A balance is below the amount asked of it.
    InsufficientBalance,
    /// The operation was attempted outside its window.
    LifecycleViolation,
    /// A creation or relationship condition does not hold.
    InvariantViolation,
    /// Redemption while no writer claim is outstanding.
    ZeroDenominator,
}

impl ErrorCode {
    /// The kind each code belongs to.
    pub open spec fn spec_kind(self) -> ErrorKind {
        match self {
            ErrorCode::ArithmeticOverflow => ErrorKind::ArithmeticOverflow,
            ErrorCode::InsufficientCollateral | ErrorCode::InsufficientFunds => {
                ErrorKind::InsufficientBalance
            },
            ErrorCode::ContractExpired | ErrorCode::ContractNotYetExpired => {
                ErrorKind::LifecycleViolation
            },
            ErrorCode::ZeroDenominator => ErrorKind::ZeroDenominator,
            _ => ErrorKind::InvariantViolation,
        }
    }

    /// The kind of failure this code stands for. The two lifecycle codes
    /// stay distinct, so that too late can be told from too early.
    pub fn kind(&self) -> (r: ErrorKind)
        ensures
            r == self.spec_kind(),
    {
        match self {
            ErrorCode::ArithmeticOverflow => ErrorKind::ArithmeticOverflow,
            ErrorCode::InsufficientCollateral => ErrorKind::InsufficientBalance,
            ErrorCode::InsufficientFunds => ErrorKind::InsufficientBalance,
            ErrorCode::ContractExpired => ErrorKind::LifecycleViolation,
            ErrorCode::ContractNotYetExpired => ErrorKind::LifecycleViolation,
            ErrorCode::ZeroDenominator => ErrorKind::ZeroDenominator,
            _ => ErrorKind::InvariantViolation,
        }
    }
}

} // verus!
