//! The contract record.

use crate::math::{lemma_product_fits, narrow_to_u64};
use crate::pubkey::Pubkey;
use vstd::bytes::{spec_u64_to_le_bytes, u64_to_le_bytes};
use vstd::prelude::*;

verus! {

/// Number of units of the underlying the strike price is denominated in.
pub const STRIKE_PRICE_UNITS: u64 = 1_000_000_000;

/// American option.
///
/// The terms are fixed when the contract is created and never change.
#[derive(Clone, Copy, Debug, PartialEq, Eq)]
pub struct OptionsContract {
    /// Underlying asset.
    pub underlying_mint: Pubkey,
    /// Strike price is denominated in this.
    pub quote_mint: Pubkey,
    /// Number of `quote_mint` tokens required to purchase `10^9` of the `underlying_mint`.
    pub strike: u64,
    /// When the option expires.
    pub expiry_ts: i64,
    /// If the option is a put.
    pub is_put: bool,
    /// Bump seed.
    pub bump: u8,
    /// The right to receive the proceeds from the option being exercised.
    pub writer_mint: Pubkey,
    /// The crate of the writer tokens.
    pub writer_crate: Pubkey,
    /// The collateral tokens of the crate.
    pub crate_collateral_tokens: Pubkey,
    /// The exercise tokens of the crate.
    pub crate_exercise_tokens: Pubkey,
    /// The option which can be exercised.
    pub option_mint: Pubkey,
}

/// The exercise payment for `option_amount` options, before any bound is
/// applied: a call pays `strike` per `STRIKE_PRICE_UNITS` options, a put
/// pays `STRIKE_PRICE_UNITS` per `strike` options, both rounded down.
pub open spec fn exercise_amount_of(is_put: bool, strike: int, option_amount: int) -> int {
    if is_put {
        option_amount * (STRIKE_PRICE_UNITS as int) / strike
    } else {
        option_amount * strike / (STRIKE_PRICE_UNITS as int)
    }
}

/// The exercise payment as the contract computes it: none for a zero
/// strike, and none where the payment does not fit in 64 bits.
pub open spec fn exercise_amount(is_put: bool, strike: u64, option_amount: u64) -> Option<u64> {
    if strike == 0 || exercise_amount_of(is_put, strike as int, option_amount as int) > u64::MAX {
        None
    } else {
        Some(exercise_amount_of(is_put, strike as int, option_amount as int) as u64)
    }
}

/// The bytes of the text `OptionsContract`, which starts the seeds of
/// every contract's address.
pub open spec fn seed_prefix() -> Seq<u8> {
    seq![79u8, 112, 116, 105, 111, 110, 115, 67, 111, 110, 116, 114, 97, 99, 116]
}

impl OptionsContract {
    /// The seeds with which the contract signs for its pools: the prefix,
    /// the two mints, the strike and the expiry as eight little-endian
    /// bytes each, one byte that is 1 for a put and 0 for a call, and the
    /// bump seed.
    pub open spec fn seeds(&self) -> Seq<Seq<u8>> {
        seq![
            seed_prefix(),
            self.underlying_mint@,
            self.quote_mint@,
            spec_u64_to_le_bytes(self.strike),
            spec_u64_to_le_bytes(self.expiry_ts as u64),
            seq![if self.is_put { 1u8 } else { 0u8 }],
            seq![self.bump],
        ]
    }

    /// Whether exercise and writing are still open at `now`.
    pub open spec fn is_active(&self, now: i64) -> bool {
        now < self.expiry_ts
    }

    /// What `collateral_mint` returns.
    pub open spec fn spec_collateral_mint(&self) -> Pubkey {
        if self.is_put {
            self.quote_mint
        } else {
            self.underlying_mint
        }
    }

    /// What `exercise_mint` returns.
    pub open spec fn spec_exercise_mint(&self) -> Pubkey {
        if self.is_put {
            self.underlying_mint
        } else {
            self.quote_mint
        }
    }

    /// Mint of the collateral.
    /// If a call, this is the underlying.
    /// If a put, this is the quote.
    pub fn collateral_mint(&self) -> (r: Pubkey)
        ensures
            r == self.spec_collateral_mint(),
    {
        if self.is_put {
            self.quote_mint
        } else {
            self.underlying_mint
        }
    }

    /// Mint of the exercise payment: the asset that is not the collateral.
    pub fn exercise_mint(&self) -> (r: Pubkey)
        ensures
            r == self.spec_exercise_mint(),
    {
        if self.is_put {
            self.underlying_mint
        } else {
            self.quote_mint
        }
    }

    /// Whether the contract is still active at `now`: strictly before expiry.
    pub fn active_at(&self, now: i64) -> (r: bool)
        ensures
            r == self.is_active(now),
    {
        now < self.expiry_ts
    }

    /// The seeds with which the contract signs for its pools.
    pub fn signer_seeds(&self) -> (r: Vec<Vec<u8>>)
        ensures
            r@.map_values(|seed: Vec<u8>| seed@) == self.seeds(),
    {
        let prefix: Vec<u8> = vec![
            79u8, 112, 116, 105, 111, 110, 115, 67, 111, 110, 116, 114, 97, 99, 116,
        ];
        assert(prefix@ =~= seed_prefix());
        let kind: Vec<u8> = if self.is_put {
            vec![1u8]
        } else {
            vec![0u8]
        };
        assert(kind@ =~= seq![if self.is_put { 1u8 } else { 0u8 }]);
        let bump: Vec<u8> = vec![self.bump];
        assert(bump@ =~= seq![self.bump]);
        let mut out: Vec<Vec<u8>> = Vec::new();
        out.push(prefix);
        out.push(self.underlying_mint.to_vec());
        out.push(self.quote_mint.to_vec());
        out.push(u64_to_le_bytes(self.strike));
        out.push(u64_to_le_bytes(self.expiry_ts as u64));
        out.push(kind);
        out.push(bump);
        assert(out@.map_values(|seed: Vec<u8>| seed@) =~= self.seeds());
        out
    }

    /// Calculates the number of exercise tokens that correspond
    /// to the number of options tokens.
    ///
    /// The product is taken in 128 bits and the quotient is rounded down.
    /// There is no amount for a zero strike, nor where the amount does not
    /// fit in 64 bits.
    pub fn calculate_exercise_amount_for_options(&self, option_amount: u64) -> (r: Option<u64>)
        ensures
            r == exercise_amount(self.is_put, self.strike, option_amount),
    {
        if self.strike == 0 {
            return None;
        }
        let (factor, divisor): (u64, u64) = if self.is_put {
            (STRIKE_PRICE_UNITS, self.strike)
        } else {
            (self.strike, STRIKE_PRICE_UNITS)
        };
        proof {
            lemma_product_fits(option_amount, factor);
        }
        let product = (option_amount as u128).checked_mul(factor as u128)?;
        let quotient = product.checked_div(divisor as u128)?;
        narrow_to_u64(quotient)
    }
}

/// Converting there and back loses at most what one rounding loses: where
/// the first conversion multiplies by `n` and divides by `d`, and `n` is at
/// least `d`, the reverse conversion gives the amount back or one less.
pub proof fn lemma_there_and_back(a: int, n: int, d: int)
    requires
        0 <= a,
        0 < d <= n,
    ensures
        a - 1 <= ((a * n / d) * d) / n <= a,
{
    let e = a * n / d;
    assert(e * d <= a * n && a * n < e * d + d) by (nonlinear_arith)
        requires
            e == a * n / d,
            0 < d,
    ;
    assert((e * d) / n <= a) by (nonlinear_arith)
        requires
            e * d <= a * n,
            0 < n,
    ;
    assert((e * d) / n >= a - 1) by (nonlinear_arith)
        requires
            a * n < e * d + d,
            0 < d <= n,
    ;
}

/// The exercise amount and its inverse: converting an option amount under
/// a contract, and the result back under the opposite kind of contract with
/// the same strike, recovers the option amount or one unit less. This holds
/// where the first conversion does not shrink the amount: a call with a
/// strike of at least `STRIKE_PRICE_UNITS`, or a put with a strike of at
/// most that.
pub proof fn lemma_exercise_amount_round_trip(is_put: bool, strike: u64, option_amount: u64)
    requires
        strike > 0,
        is_put ==> strike <= STRIKE_PRICE_UNITS,
        !is_put ==> strike >= STRIKE_PRICE_UNITS,
        exercise_amount(is_put, strike, option_amount) is Some,
    ensures
        exercise_amount(!is_put, strike, exercise_amount(is_put, strike, option_amount).unwrap())
            is Some,
        option_amount - 1 <= exercise_amount(
            !is_put,
            strike,
            exercise_amount(is_put, strike, option_amount).unwrap(),
        ).unwrap() <= option_amount,
{
    let a = option_amount as int;
    let s = strike as int;
    let u = STRIKE_PRICE_UNITS as int;
    if is_put {
        lemma_there_and_back(a, u, s);
        assert(a * u / s >= 0) by (nonlinear_arith)
            requires
                a >= 0,
                s > 0,
                u > 0,
        ;
    } else {
        lemma_there_and_back(a, s, u);
        assert(a * s / u >= 0) by (nonlinear_arith)
            requires
                a >= 0,
                s > 0,
                u > 0,
        ;
    }
}

} // verus!
