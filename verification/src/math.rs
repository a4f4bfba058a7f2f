//! Fee and pro-rata arithmetic.

use crate::error::ErrorCode;
use num_traits::ToPrimitive;
use vstd::prelude::*;

verus! {

/// Thousands of BPS of the exercise fee.
pub const EXERCISE_FEE_KBPS: u64 = 1_000;

/// Thousands of BPS that make up the whole of an amount.
pub const FEE_DENOMINATOR: u64 = 10_000_000;

/// A gross exercise payment, split into the protocol's fee and the rest.
#[derive(Clone, Copy, Debug, PartialEq, Eq, Structural)]
pub struct FeeSplit {
    /// What goes to the protocol.
    pub fee: u64,
    /// What goes to the exercise-proceeds pool.
    pub net: u64,
}

/// The fee on a gross amount: a thousandth of it, rounded down.
pub open spec fn fee_of(gross: int) -> int {
    gross * (EXERCISE_FEE_KBPS as int) / (FEE_DENOMINATOR as int)
}

/// Whether the fee on `gross` can be computed in 64 bits.
pub open spec fn fee_representable(gross: int) -> bool {
    gross * (EXERCISE_FEE_KBPS as int) <= u64::MAX
}

/// The share of `pool` that `amount` claims out of `supply`, rounded down.
pub open spec fn share_of(pool: int, amount: int, supply: int) -> int {
    pool * amount / supply
}

/// `num_traits::ToPrimitive::to_u64` on a `u128`: the same number as a
/// `u64` where it is at most `u64::MAX`, and `None` where it is larger.
#[verifier::external_body]
pub(crate) fn narrow_to_u64(v: u128) -> (r: Option<u64>)
    ensures
        v <= u64::MAX ==> r == Some(v as u64),
        v > u64::MAX ==> r is None,
{
    v.to_u64()
}

/// The product of two 64-bit numbers fits in 128 bits.
pub proof fn lemma_product_fits(a: u64, b: u64)
    ensures
        0 <= a * b <= u128::MAX,
{
    assert(0 <= a * b <= 0xffff_ffff_ffff_ffff * 0xffff_ffff_ffff_ffff) by (nonlinear_arith)
        requires
            0 <= a <= 0xffff_ffff_ffff_ffff,
            0 <= b <= 0xffff_ffff_ffff_ffff,
    ;
}

/// Splits a gross exercise payment into fee and net.
///
/// The fee is `gross * EXERCISE_FEE_KBPS / FEE_DENOMINATOR`, rounded down,
/// computed in 64 bits; where the product does not fit, the split fails.
/// Fee and net always add up to the gross amount.
pub fn fee_split(gross: u64) -> (r: Result<FeeSplit, ErrorCode>)
    ensures
        !fee_representable(gross as int) ==> r == Err::<FeeSplit, ErrorCode>(
            ErrorCode::ArithmeticOverflow,
        ),
        fee_representable(gross as int) ==> r == Ok::<FeeSplit, ErrorCode>(
            (FeeSplit { fee: fee_of(gross as int) as u64, net: (gross - fee_of(gross as int)) as u64 }),
        ),
        r matches Ok(s) ==> s.fee + s.net == gross,
{
    let scaled = match gross.checked_mul(EXERCISE_FEE_KBPS) {
        Some(v) => v,
        None => return Err(ErrorCode::ArithmeticOverflow),
    };
    let fee = match scaled.checked_div(FEE_DENOMINATOR) {
        Some(v) => v,
        None => return Err(ErrorCode::ArithmeticOverflow),
    };
    match gross.checked_sub(fee) {
        Some(net) => Ok(FeeSplit { fee, net }),
        None => Err(ErrorCode::ArithmeticOverflow),
    }
}

/// The pro-rata share of a pool: `pool * amount / supply`, rounded down,
/// with the product taken in 128 bits.
///
/// Fails with `ZeroDenominator` where `supply` is zero, and with
/// `ArithmeticOverflow` where the share does not fit in 64 bits.
pub fn proportional_share(pool: u64, amount: u64, supply: u64) -> (r: Result<u64, ErrorCode>)
    ensures
        supply == 0 ==> r == Err::<u64, ErrorCode>(ErrorCode::ZeroDenominator),
        supply > 0 && share_of(pool as int, amount as int, supply as int) > u64::MAX ==> r
            == Err::<u64, ErrorCode>(ErrorCode::ArithmeticOverflow),
        supply > 0 && share_of(pool as int, amount as int, supply as int) <= u64::MAX ==> r
            == Ok::<u64, ErrorCode>(share_of(pool as int, amount as int, supply as int) as u64),
{
    if supply == 0 {
        return Err(ErrorCode::ZeroDenominator);
    }
    proof {
        lemma_product_fits(pool, amount);
    }
    let product = match (pool as u128).checked_mul(amount as u128) {
        Some(v) => v,
        None => return Err(ErrorCode::ArithmeticOverflow),
    };
    let quotient = match product.checked_div(supply as u128) {
        Some(v) => v,
        None => return Err(ErrorCode::ZeroDenominator),
    };
    match narrow_to_u64(quotient) {
        Some(v) => Ok(v),
        None => Err(ErrorCode::ArithmeticOverflow),
    }
}

/// Fee and net lose nothing: whenever the fee can be computed, it is at
/// most the gross amount, and fee and net add up to it.
pub proof fn lemma_fee_plus_net_is_gross(gross: u64)
    requires
        fee_representable(gross as int),
    ensures
        0 <= fee_of(gross as int) <= gross,
        fee_of(gross as int) + (gross - fee_of(gross as int)) == gross,
{
}

/// A claim never takes more than the pool: for `amount <= supply` the
/// share is at most the pool's balance.
pub proof fn lemma_share_within_pool(pool: int, amount: int, supply: int)
    requires
        0 <= pool,
        0 <= amount <= supply,
        0 < supply,
    ensures
        0 <= share_of(pool, amount, supply) <= pool,
{
    assert(0 <= pool * amount / supply <= pool) by (nonlinear_arith)
        requires
            0 <= pool,
            0 <= amount <= supply,
            0 < supply,
    ;
}

/// Redemption is proportional: against the same pool and supply, twice the
/// claims redeem twice the share, up to the one unit that rounding down
/// may have taken from the smaller share.
pub proof fn lemma_redeem_is_proportional(pool: int, amount: int, supply: int)
    requires
        0 <= pool,
        0 <= amount,
        0 < supply,
    ensures
        2 * share_of(pool, amount, supply) <= share_of(pool, 2 * amount, supply),
        share_of(pool, 2 * amount, supply) <= 2 * share_of(pool, amount, supply) + 1,
{
    let x = pool * amount;
    assert(pool * (2 * amount) == 2 * x) by (nonlinear_arith)
        requires
            x == pool * amount,
    ;
    assert(2 * (x / supply) <= (2 * x) / supply <= 2 * (x / supply) + 1) by (nonlinear_arith)
        requires
            0 < supply,
    ;
}

} // verus!
