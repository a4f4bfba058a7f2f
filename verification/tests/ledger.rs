use traction::{
    ErrorCode, ErrorKind, FeeSplit, Holder, Ledger, Operation, OptionsContract, Pubkey, Receipt,
};

fn address(n: u8) -> Pubkey {
    Pubkey::new_from_array([n; 32])
}

fn terms(strike: u64, is_put: bool, expiry_ts: i64) -> OptionsContract {
    OptionsContract {
        underlying_mint: address(1),
        quote_mint: address(2),
        strike,
        expiry_ts,
        is_put,
        bump: 254,
        writer_mint: address(3),
        writer_crate: address(4),
        crate_collateral_tokens: address(5),
        crate_exercise_tokens: address(6),
        option_mint: address(7),
    }
}

fn wallet(collateral: u64, payment: u64) -> Holder {
    Holder { collateral, payment, writer_tokens: 0, option_tokens: 0 }
}

#[test]
fn new_books_are_empty() {
    let c = terms(2_000_000_000, false, 100);
    let books = Ledger::new(c);
    assert_eq!(books.contract, c);
    assert_eq!(books.collateral_pool, 0);
    assert_eq!(books.exercise_pool, 0);
    assert_eq!(books.writer_supply, 0);
    assert_eq!(books.option_supply, 0);
    assert_eq!(books.fees_collected, 0);
}

#[test]
fn write_moves_collateral_and_mints_both_tokens() {
    let mut books = Ledger::new(terms(2_000_000_000, false, 100));
    let mut h = wallet(5_000, 0);
    assert_eq!(books.write(&mut h, 1_000, 99), Ok(()));
    assert_eq!(books.collateral_pool, 1_000);
    assert_eq!(books.writer_supply, 1_000);
    assert_eq!(books.option_supply, 1_000);
    assert_eq!(books.exercise_pool, 0);
    assert_eq!(h, Holder { collateral: 4_000, payment: 0, writer_tokens: 1_000, option_tokens: 1_000 });
}

#[test]
fn write_then_exercise_on_fresh_contract() {
    let mut books = Ledger::new(terms(2_000_000_000, false, 100));
    let mut h = wallet(1_000, 5_000);
    assert_eq!(books.write(&mut h, 1_000, 10), Ok(()));
    let pool_before = books.collateral_pool;
    let split = books.exercise(&mut h, 1_000, 11).unwrap();
    assert_eq!(split, FeeSplit { fee: 0, net: 2_000 });
    assert_eq!(pool_before - books.collateral_pool, 1_000);
    assert_eq!(books.collateral_pool, 0);
    assert_eq!(books.option_supply, 0);
    assert_eq!(books.exercise_pool, 2_000);
    assert_eq!(books.writer_supply, 1_000);
    assert_eq!(h, Holder { collateral: 1_000, payment: 3_000, writer_tokens: 1_000, option_tokens: 0 });
}

#[test]
fn exercise_pays_fee_to_protocol() {
    let mut books = Ledger::new(terms(2_000_000_000, false, 100));
    let mut h = wallet(500_000_000, 1_000_000_000);
    assert_eq!(books.write(&mut h, 500_000_000, 0), Ok(()));
    let split = books.exercise(&mut h, 500_000_000, 0).unwrap();
    assert_eq!(split, FeeSplit { fee: 100_000, net: 999_900_000 });
    assert_eq!(books.exercise_pool, 999_900_000);
    assert_eq!(books.fees_collected, 100_000);
    assert_eq!(h.payment, 0);
    assert_eq!(h.collateral, 500_000_000);
}

#[test]
fn write_then_burn_restores_everything() {
    let fresh = Ledger::new(terms(3, true, 100));
    let before = Holder { collateral: 700, payment: 9, writer_tokens: 4, option_tokens: 5 };
    for amount in [0u64, 1, 699, 700] {
        let mut books = fresh;
        let mut h = before;
        assert_eq!(books.write(&mut h, amount, 99), Ok(()));
        assert_eq!(h.collateral, 700 - amount);
        assert_eq!(books.burn(&mut h, amount), Ok(()));
        assert_eq!(h, before);
        assert_eq!(books, fresh);
    }
}

#[test]
fn burn_is_allowed_after_expiry_and_takes_no_fee() {
    let mut books = Ledger::new(terms(2_000_000_000, false, 100));
    let mut h = wallet(1_000, 0);
    assert_eq!(books.write(&mut h, 1_000, 99), Ok(()));
    assert_eq!(books.burn(&mut h, 400), Ok(()));
    assert_eq!(books.collateral_pool, 600);
    assert_eq!(books.writer_supply, 600);
    assert_eq!(books.option_supply, 600);
    assert_eq!(books.exercise_pool, 0);
    assert_eq!(books.fees_collected, 0);
    assert_eq!(h, Holder { collateral: 400, payment: 0, writer_tokens: 600, option_tokens: 600 });
}

#[test]
fn burn_of_nothing_changes_nothing() {
    let mut books = Ledger::new(terms(1, false, 0));
    let mut h = wallet(0, 0);
    assert_eq!(books.burn(&mut h, 0), Ok(()));
    assert_eq!(books, Ledger::new(terms(1, false, 0)));
    assert_eq!(h, wallet(0, 0));
}

#[test]
fn burn_beyond_holdings_is_refused() {
    let mut books = Ledger::new(terms(1, false, 100));
    let mut h = wallet(10, 0);
    assert_eq!(books.write(&mut h, 10, 0), Ok(()));
    let snapshot = (books, h);
    assert_eq!(books.burn(&mut h, 11), Err(ErrorCode::InsufficientFunds));
    assert_eq!((books, h), snapshot);
}

#[test]
fn write_without_collateral_is_refused() {
    let mut books = Ledger::new(terms(1, false, 100));
    let mut h = wallet(10, 0);
    assert_eq!(books.write(&mut h, 11, 0), Err(ErrorCode::InsufficientCollateral));
    assert_eq!(books, Ledger::new(terms(1, false, 100)));
    assert_eq!(h, wallet(10, 0));
}

#[test]
fn write_beyond_the_limit_is_refused() {
    let mut books = Ledger::new(terms(1, false, 100));
    let mut h = Holder { collateral: 10, payment: 0, writer_tokens: u64::MAX, option_tokens: 0 };
    assert_eq!(books.write(&mut h, 1, 0), Err(ErrorCode::ArithmeticOverflow));
    assert_eq!(books.collateral_pool, 0);
}

#[test]
fn expiry_gates_write_exercise_and_redeem() {
    let mut books = Ledger::new(terms(1_000_000_000, false, 100));
    let mut h = wallet(1_000, 1_000);
    assert_eq!(books.write(&mut h, 100, 100), Err(ErrorCode::ContractExpired));
    assert_eq!(books.write(&mut h, 100, 99), Ok(()));
    assert_eq!(books.redeem(&mut h, 10, 99), Err(ErrorCode::ContractNotYetExpired));
    assert_eq!(books.exercise(&mut h, 10, 100), Err(ErrorCode::ContractExpired));
    assert_eq!(books.exercise(&mut h, 10, 101), Err(ErrorCode::ContractExpired));
    assert_eq!(books.exercise(&mut h, 10, 99), Ok(FeeSplit { fee: 0, net: 10 }));
    assert_eq!(books.redeem(&mut h, 10, 100), Ok((9, 1)));
    assert_eq!(books.redeem(&mut h, 10, 101), Ok((9, 1)));
}

#[test]
fn redeem_with_no_writer_supply_is_refused() {
    let mut books = Ledger::new(terms(1_000_000_000, false, 100));
    let mut h = wallet(0, 0);
    assert_eq!(books.redeem(&mut h, 0, 100), Err(ErrorCode::ZeroDenominator));
    assert_eq!(books.redeem(&mut h, 5, 200), Err(ErrorCode::ZeroDenominator));
    assert_eq!(books, Ledger::new(terms(1_000_000_000, false, 100)));
}

#[test]
fn redeem_takes_a_share_of_each_pool() {
    let mut books = Ledger::new(terms(2_000_000_000, false, 100));
    let mut a = wallet(200, 0);
    let mut b = wallet(100, 0);
    let mut taker = wallet(0, 1_000);
    assert_eq!(books.write(&mut a, 200, 0), Ok(()));
    assert_eq!(books.write(&mut b, 100, 0), Ok(()));
    taker.option_tokens = 30;
    assert_eq!(books.exercise(&mut taker, 30, 1), Ok(FeeSplit { fee: 0, net: 60 }));
    assert_eq!(books.collateral_pool, 270);
    assert_eq!(books.exercise_pool, 60);
    let snapshot = books;
    let mut for_b = snapshot;
    assert_eq!(for_b.redeem(&mut b, 100, 100), Ok((90, 20)));
    let mut for_a = snapshot;
    assert_eq!(for_a.redeem(&mut a, 200, 100), Ok((180, 40)));
    assert_eq!(a.collateral, 180);
    assert_eq!(a.payment, 40);
    assert_eq!(for_a.writer_supply, 100);
    assert_eq!(for_a.collateral_pool, 90);
    assert_eq!(for_a.exercise_pool, 20);
}

#[test]
fn redeem_beyond_holdings_is_refused() {
    let mut books = Ledger::new(terms(1, false, 100));
    let mut h = wallet(10, 0);
    assert_eq!(books.write(&mut h, 10, 0), Ok(()));
    assert_eq!(books.redeem(&mut h, 11, 100), Err(ErrorCode::InsufficientFunds));
    assert_eq!(books.collateral_pool, 10);
}

#[test]
fn exercise_without_payment_or_options_is_refused() {
    let mut books = Ledger::new(terms(2_000_000_000, false, 100));
    let mut h = wallet(10, 19);
    assert_eq!(books.write(&mut h, 10, 0), Ok(()));
    let snapshot = (books, h);
    assert_eq!(books.exercise(&mut h, 10, 1), Err(ErrorCode::InsufficientFunds));
    assert_eq!(books.exercise(&mut h, 11, 1), Err(ErrorCode::InsufficientFunds));
    assert_eq!((books, h), snapshot);
    assert_eq!(books.exercise(&mut h, 9, 1), Ok(FeeSplit { fee: 0, net: 18 }));
}

#[test]
fn exercise_on_zero_strike_is_refused() {
    let mut books = Ledger::new(terms(0, true, 100));
    let mut h = wallet(10, 10);
    assert_eq!(books.write(&mut h, 10, 0), Ok(()));
    assert_eq!(books.exercise(&mut h, 1, 1), Err(ErrorCode::ArithmeticOverflow));
}

#[test]
fn deposits_equal_withdrawals_over_a_full_history() {
    let mut books = Ledger::new(terms(1_500_000_000, false, 100));
    let mut w1 = wallet(1_000, 0);
    let mut w2 = wallet(500, 0);
    let mut taker = wallet(0, 10_000);
    assert_eq!(books.write(&mut w1, 1_000, 0), Ok(()));
    assert_eq!(books.write(&mut w2, 500, 0), Ok(()));
    taker.option_tokens = 600;
    w1.option_tokens -= 600;
    assert_eq!(books.exercise(&mut taker, 600, 5), Ok(FeeSplit { fee: 0, net: 900 }));
    assert_eq!(books.burn(&mut w2, 500), Ok(()));
    assert_eq!(books.redeem(&mut w1, 1_000, 100), Ok((400, 900)));
    assert_eq!(books.collateral_pool, 0);
    assert_eq!(books.exercise_pool, 0);
    assert_eq!(books.writer_supply, 0);
    assert_eq!(taker.collateral + w1.collateral + w2.collateral, 1_500);
}

#[test]
fn operations_dispatch_through_one_entry() {
    let mut books = Ledger::new(terms(2_000_000_000, false, 100));
    let mut h = wallet(1_000, 5_000);
    assert_eq!(books.apply(&mut h, Operation::Write { write_amount: 1_000 }, 10), Ok(Receipt::Written));
    assert_eq!(
        books.apply(&mut h, Operation::Exercise { option_amount: 400 }, 11),
        Ok(Receipt::Exercised(FeeSplit { fee: 0, net: 800 }))
    );
    assert_eq!(books.apply(&mut h, Operation::Burn { burn_amount: 100 }, 12), Ok(Receipt::Burned));
    assert_eq!(
        books.apply(&mut h, Operation::Redeem { writer_amount: 450 }, 100),
        Ok(Receipt::Redeemed { from_collateral: 250, from_exercise: 400 })
    );
    assert_eq!(books.collateral_pool, 250);
    assert_eq!(books.exercise_pool, 400);
    assert_eq!(books.writer_supply, 450);
    assert_eq!(books.option_supply, 500);
    assert_eq!(books.collateral_pool + h.collateral, 1_000);
    assert_eq!(books.exercise_pool + books.fees_collected + h.payment, 5_000);
}

#[test]
fn refused_operations_leave_everything_untouched() {
    let mut books = Ledger::new(terms(2_000_000_000, false, 100));
    let mut h = wallet(1_000, 5_000);
    assert_eq!(books.apply(&mut h, Operation::Write { write_amount: 10 }, 5), Ok(Receipt::Written));
    let snapshot = (books, h);
    for (op, now, code) in [
        (Operation::Write { write_amount: 1 }, 100, ErrorCode::ContractExpired),
        (Operation::Exercise { option_amount: 1 }, 100, ErrorCode::ContractExpired),
        (Operation::Redeem { writer_amount: 1 }, 99, ErrorCode::ContractNotYetExpired),
        (Operation::Write { write_amount: 991 }, 99, ErrorCode::InsufficientCollateral),
        (Operation::Exercise { option_amount: 11 }, 99, ErrorCode::InsufficientFunds),
        (Operation::Redeem { writer_amount: 11 }, 100, ErrorCode::InsufficientFunds),
        (Operation::Burn { burn_amount: 11 }, 100, ErrorCode::InsufficientFunds),
    ] {
        assert_eq!(books.apply(&mut h, op, now), Err(code));
        assert_eq!((books, h), snapshot);
    }
}

#[test]
fn operations_know_their_window() {
    let c = terms(1, false, 100);
    for (now, open) in [(99i64, true), (100, false), (101, false)] {
        assert_eq!(Operation::Write { write_amount: 1 }.is_permitted(&c, now), open);
        assert_eq!(Operation::Exercise { option_amount: 1 }.is_permitted(&c, now), open);
        assert_eq!(Operation::Redeem { writer_amount: 1 }.is_permitted(&c, now), !open);
        assert!(Operation::Burn { burn_amount: 1 }.is_permitted(&c, now));
    }
}

#[test]
fn error_codes_fall_into_five_kinds() {
    assert_eq!(ErrorCode::ArithmeticOverflow.kind(), ErrorKind::ArithmeticOverflow);
    assert_eq!(ErrorCode::InsufficientCollateral.kind(), ErrorKind::InsufficientBalance);
    assert_eq!(ErrorCode::InsufficientFunds.kind(), ErrorKind::InsufficientBalance);
    assert_eq!(ErrorCode::ContractExpired.kind(), ErrorKind::LifecycleViolation);
    assert_eq!(ErrorCode::ContractNotYetExpired.kind(), ErrorKind::LifecycleViolation);
    assert_eq!(ErrorCode::ZeroDenominator.kind(), ErrorKind::ZeroDenominator);
    for code in [
        ErrorCode::Unauthorized,
        ErrorCode::CallDecimalMismatch,
        ErrorCode::PutDecimalMismatch,
        ErrorCode::UselessMints,
        ErrorCode::OptionMintMustHaveZeroSupply,
        ErrorCode::OptionDecimalMismatch,
        ErrorCode::WriterDecimalMismatch,
        ErrorCode::KeyMismatch,
        ErrorCode::PoolAddressNotFound,
    ] {
        assert_eq!(code.kind(), ErrorKind::InvariantViolation);
    }
}
