use std::str::FromStr;
use traction::{
    associated_token_program_id, fee_owner, get_associated_token_address, new_contract,
    token_program_id, option_burn, option_exercise, option_redeem, option_write,
    program_id, ErrorCode, Instruction, Mint, NewContract, OptionBurn, OptionBurnEvent,
    OptionExercise, OptionExerciseEvent, OptionRedeem, OptionRedeemEvent, OptionWrite,
    OptionWriteEvent, OptionsContract, Pubkey, TokenAccount, WriterCrate, FEE_OWNER_BUMP,
};

fn k(n: u8) -> Pubkey {
    Pubkey::new_from_array([n; 32])
}

const UNDERLYING: u8 = 1;
const QUOTE: u8 = 2;
const WRITER_MINT: u8 = 3;
const CRATE: u8 = 4;
const POOL: u8 = 5;
const PROCEEDS: u8 = 6;
const OPTION_MINT: u8 = 7;
const CONTRACT: u8 = 8;
const USER: u8 = 9;

fn call(strike: u64) -> OptionsContract {
    OptionsContract {
        underlying_mint: k(UNDERLYING),
        quote_mint: k(QUOTE),
        strike,
        expiry_ts: 1_000,
        is_put: false,
        bump: 254,
        writer_mint: k(WRITER_MINT),
        writer_crate: k(CRATE),
        crate_collateral_tokens: k(POOL),
        crate_exercise_tokens: k(PROCEEDS),
        option_mint: k(OPTION_MINT),
    }
}

fn tokens(key: u8, mint: u8, owner: Pubkey, amount: u64) -> TokenAccount {
    TokenAccount { key: k(key), mint: k(mint), owner, amount }
}

fn mint(key: u8, supply: u64, decimals: u8, authority: Option<Pubkey>) -> Mint {
    Mint { key: k(key), mint_authority: authority, supply, decimals, freeze_authority: authority }
}

fn free_withdraw(pool: u8, destination: u8, amount: u64) -> Instruction {
    Instruction::Withdraw {
        crate_token: k(CRATE),
        crate_underlying: k(pool),
        withdraw_authority: k(CONTRACT),
        withdraw_destination: k(destination),
        author_fee_destination: k(destination),
        protocol_fee_destination: k(destination),
        amount,
    }
}

fn write_accounts(funding: u64) -> OptionWrite {
    OptionWrite {
        writer_authority: k(USER),
        contract_key: k(CONTRACT),
        contract: call(2_000_000_000),
        user_collateral_funding_tokens: tokens(20, UNDERLYING, k(USER), funding),
        option_token_destination: k(21),
        crate_collateral_tokens: k(POOL),
        writer_token_destination: k(22),
        writer_crate_token: k(CRATE),
        writer_mint: k(WRITER_MINT),
        option_mint: k(OPTION_MINT),
    }
}

fn exercise_accounts() -> OptionExercise {
    OptionExercise {
        exerciser_authority: k(USER),
        contract_key: k(CONTRACT),
        contract: call(2_000_000_000),
        exercise_token_source: tokens(30, QUOTE, k(USER), u64::MAX),
        option_mint: k(OPTION_MINT),
        option_token_source: tokens(31, OPTION_MINT, k(USER), u64::MAX),
        writer_crate_token: k(CRATE),
        crate_collateral_tokens: k(POOL),
        crate_exercise_tokens: k(PROCEEDS),
        collateral_token_destination: tokens(32, UNDERLYING, k(USER), 0),
        exercise_fee_destination: tokens(33, QUOTE, fee_owner(), 0),
    }
}

fn redeem_accounts(pool: u64, proceeds: u64, supply: u64) -> OptionRedeem {
    OptionRedeem {
        writer_authority: k(USER),
        contract_key: k(CONTRACT),
        contract: call(2_000_000_000),
        writer_token_source: tokens(40, WRITER_MINT, k(USER), 200),
        writer_mint: mint(WRITER_MINT, supply, 6, Some(k(CRATE))),
        collateral_token_destination: k(41),
        exercise_token_destination: k(42),
        writer_crate_token: k(CRATE),
        crate_collateral_tokens: tokens(POOL, UNDERLYING, k(CRATE), pool),
        crate_exercise_tokens: tokens(PROCEEDS, QUOTE, k(CRATE), proceeds),
    }
}

fn burn_accounts(writer_tokens: u64, option_tokens: u64) -> OptionBurn {
    OptionBurn {
        burner_authority: k(USER),
        contract_key: k(CONTRACT),
        contract: call(2_000_000_000),
        writer_mint: k(WRITER_MINT),
        option_mint: k(OPTION_MINT),
        writer_token_source: tokens(50, WRITER_MINT, k(USER), writer_tokens),
        option_token_source: tokens(51, OPTION_MINT, k(USER), option_tokens),
        crate_collateral_tokens: k(POOL),
        collateral_token_destination: k(52),
        writer_crate_token: k(CRATE),
    }
}

fn creation() -> NewContract {
    NewContract {
        contract_key: k(CONTRACT),
        underlying_mint: mint(UNDERLYING, 1_000_000, 6, None),
        quote_mint: mint(QUOTE, 5, 9, None),
        writer_crate: WriterCrate { crate_mint: mint(WRITER_MINT, 0, 6, Some(k(CRATE))), crate_token: k(CRATE) },
        option_mint: mint(OPTION_MINT, 0, 6, Some(k(CONTRACT))),
        payer: k(USER),
    }
}

fn solana_key(key: &Pubkey) -> solana_program::pubkey::Pubkey {
    solana_program::pubkey::Pubkey::new_from_array(key.to_bytes())
}

#[test]
fn test_fee_owner_address() {
    let id = solana_program::pubkey::Pubkey::from_str("TRXf3r361YRfV6Zktov3nvdEqJwAuCowkjh4PUUBYEc")
        .unwrap();
    assert_eq!(id.to_bytes(), program_id().to_bytes());
    let (key, bump) =
        solana_program::pubkey::Pubkey::find_program_address(&[b"TractionDAOFees"], &id);
    assert_eq!(key.to_bytes(), fee_owner().to_bytes());
    assert_eq!(key, solana_key(&fee_owner()));
    assert_eq!(bump, FEE_OWNER_BUMP);
}

#[test]
fn fee_owner_has_its_address() {
    let expected =
        solana_program::pubkey::Pubkey::from_str("2DDSpDyRbu9gZbcp2JCq2ZaA9FrCzXzoiyiGLyUFYSP5")
            .unwrap();
    assert_eq!(fee_owner().to_bytes(), expected.to_bytes());
}

#[test]
fn addresses_compare_byte_for_byte() {
    let mut bytes = [7u8; 32];
    let a = Pubkey::new_from_array(bytes);
    assert!(a.equals(&k(7)));
    assert_eq!(a.to_bytes(), bytes);
    bytes[31] = 8;
    assert!(!a.equals(&Pubkey::new_from_array(bytes)));
    bytes[31] = 7;
    bytes[0] = 0;
    assert!(!a.equals(&Pubkey::new_from_array(bytes)));
}

#[test]
fn creation_of_a_valid_contract_succeeds_with_empty_books() {
    let accounts = creation();
    assert_eq!(accounts.validate(), Ok(()));
    for is_put in [false, true] {
        let (books, opening) = new_contract(&accounts, 2_000_000_000, 1_000, is_put, 254, 253).unwrap();
        assert_eq!(books.collateral_pool, 0);
        assert_eq!(books.exercise_pool, 0);
        assert_eq!(books.writer_supply, 0);
        assert_eq!(books.option_supply, 0);
        assert_eq!(books.fees_collected, 0);
        let c = books.contract;
        assert_eq!(c.underlying_mint, k(UNDERLYING));
        assert_eq!(c.quote_mint, k(QUOTE));
        assert_eq!(c.strike, 2_000_000_000);
        assert_eq!(c.expiry_ts, 1_000);
        assert_eq!(c.is_put, is_put);
        assert_eq!(c.bump, 254);
        assert_eq!(c.writer_mint, k(WRITER_MINT));
        assert_eq!(c.writer_crate, k(CRATE));
        assert_eq!(c.option_mint, k(OPTION_MINT));
        let (collateral, payment) = if is_put { (QUOTE, UNDERLYING) } else { (UNDERLYING, QUOTE) };
        let pool = spl_associated_token_account::get_associated_token_address(
            &solana_key(&k(CRATE)),
            &solana_key(&k(collateral)),
        );
        let proceeds = spl_associated_token_account::get_associated_token_address(
            &solana_key(&k(CRATE)),
            &solana_key(&k(payment)),
        );
        assert_eq!(c.crate_collateral_tokens.to_bytes(), pool.to_bytes());
        assert_eq!(c.crate_exercise_tokens.to_bytes(), proceeds.to_bytes());
        assert_ne!(c.crate_collateral_tokens, c.crate_exercise_tokens);
        assert_ne!(c.crate_collateral_tokens, k(CRATE));
        assert_ne!(c.crate_collateral_tokens, k(collateral));
        assert_eq!(
            opening,
            Instruction::NewCrate {
                crate_mint: k(WRITER_MINT),
                crate_token: k(CRATE),
                issue_authority: k(CONTRACT),
                withdraw_authority: k(CONTRACT),
                fee_to_setter: k(CONTRACT),
                fee_setter_authority: k(CONTRACT),
                author_fee_to: k(CONTRACT),
                payer: k(USER),
                bump: 253,
            }
        );
    }
}

#[test]
fn pool_addresses_are_a_function_of_crate_and_mint() {
    let accounts = creation();
    let (first, _) = accounts.new_contract(1, 2, false, 3, 4).unwrap();
    let (second, _) = accounts.new_contract(9, 8, false, 7, 6).unwrap();
    assert_eq!(first.crate_collateral_tokens, second.crate_collateral_tokens);
    assert_eq!(first.crate_exercise_tokens, second.crate_exercise_tokens);
    let (put, _) = accounts.new_contract(1, 2, true, 3, 4).unwrap();
    assert_eq!(put.crate_collateral_tokens, first.crate_exercise_tokens);
    assert_eq!(put.crate_exercise_tokens, first.crate_collateral_tokens);
}

#[test]
fn creation_checks_fail_in_order() {
    let mut a = creation();
    a.option_mint.mint_authority = None;
    a.option_mint.supply = 1;
    assert_eq!(a.validate(), Err(ErrorCode::KeyMismatch));
    let mut a = creation();
    a.option_mint.freeze_authority = Some(k(USER));
    assert_eq!(a.validate(), Err(ErrorCode::KeyMismatch));
    let mut a = creation();
    a.option_mint.mint_authority = Some(k(USER));
    assert_eq!(a.validate(), Err(ErrorCode::KeyMismatch));
    let mut a = creation();
    a.option_mint.supply = 1;
    a.quote_mint.key = k(UNDERLYING);
    assert_eq!(a.validate(), Err(ErrorCode::OptionMintMustHaveZeroSupply));
    let mut a = creation();
    a.quote_mint.key = k(UNDERLYING);
    a.option_mint.decimals = 5;
    assert_eq!(a.validate(), Err(ErrorCode::UselessMints));
    assert_eq!(new_contract(&a, 1, 1, false, 0, 0), Err(ErrorCode::UselessMints));
    let mut a = creation();
    a.option_mint.decimals = 5;
    a.writer_crate.crate_mint.decimals = 5;
    assert_eq!(a.validate(), Err(ErrorCode::OptionDecimalMismatch));
    let mut a = creation();
    a.writer_crate.crate_mint.decimals = 5;
    assert_eq!(a.validate(), Err(ErrorCode::WriterDecimalMismatch));
}

#[test]
fn write_yields_payment_issue_and_mint() {
    let accounts = write_accounts(1_000);
    assert_eq!(accounts.validate(999), Ok(()));
    let (plan, event) = option_write(&accounts, 1_000, 999).unwrap();
    assert_eq!(
        plan,
        vec![
            Instruction::Transfer { from: k(20), to: k(POOL), authority: k(USER), amount: 1_000 },
            Instruction::Issue {
                crate_token: k(CRATE),
                crate_mint: k(WRITER_MINT),
                issue_authority: k(CONTRACT),
                mint_destination: k(22),
                author_fee_destination: k(22),
                protocol_fee_destination: k(22),
                amount: 1_000,
            },
            Instruction::MintTo { mint: k(OPTION_MINT), to: k(21), authority: k(CONTRACT), amount: 1_000 },
        ]
    );
    assert_eq!(
        event,
        OptionWriteEvent { contract: k(CONTRACT), writer: k(USER), write_amount: 1_000, timestamp: 999 }
    );
    assert_eq!(plan[0], accounts.pull_payment(1_000));
    assert_eq!(plan[1], accounts.issue_writer_tokens(1_000));
    assert_eq!(plan[2], accounts.mint_options(1_000));
}

#[test]
fn write_is_refused_without_collateral_or_after_expiry() {
    let accounts = write_accounts(999);
    assert_eq!(accounts.write(1_000, 5).unwrap_err(), ErrorCode::InsufficientCollateral);
    assert_eq!(option_write(&accounts, 1_000, 5).unwrap_err(), ErrorCode::InsufficientCollateral);
    assert_eq!(option_write(&accounts, 10, 1_000).unwrap_err(), ErrorCode::ContractExpired);
    assert_eq!(option_write(&accounts, 10, 1_001).unwrap_err(), ErrorCode::ContractExpired);
    assert!(option_write(&accounts, 999, 999).is_ok());
}

#[test]
fn write_is_refused_on_foreign_accounts() {
    let mut a = write_accounts(10);
    a.crate_collateral_tokens = k(99);
    assert_eq!(a.validate(0), Err(ErrorCode::KeyMismatch));
    assert_eq!(a.validate(1_000), Err(ErrorCode::ContractExpired));
    let mut a = write_accounts(10);
    a.user_collateral_funding_tokens.owner = k(99);
    assert_eq!(option_write(&a, 1, 0).unwrap_err(), ErrorCode::KeyMismatch);
    let mut a = write_accounts(10);
    a.writer_crate_token = k(99);
    assert_eq!(a.validate(0), Err(ErrorCode::KeyMismatch));
    let mut a = write_accounts(10);
    a.writer_mint = k(99);
    assert_eq!(a.validate(0), Err(ErrorCode::KeyMismatch));
    let mut a = write_accounts(10);
    a.option_mint = k(99);
    assert_eq!(a.validate(0), Err(ErrorCode::KeyMismatch));
}

#[test]
fn exercise_yields_payment_fee_burn_and_withdrawal() {
    let accounts = exercise_accounts();
    let (plan, event) = option_exercise(&accounts, 500_000_000, 999).unwrap();
    assert_eq!(
        plan,
        vec![
            Instruction::Transfer { from: k(30), to: k(PROCEEDS), authority: k(USER), amount: 999_900_000 },
            Instruction::Transfer { from: k(30), to: k(33), authority: k(USER), amount: 100_000 },
            Instruction::Burn { mint: k(OPTION_MINT), from: k(31), authority: k(USER), amount: 500_000_000 },
            free_withdraw(POOL, 32, 500_000_000),
        ]
    );
    assert_eq!(
        event,
        OptionExerciseEvent {
            contract: k(CONTRACT),
            exerciser: k(USER),
            option_amount: 500_000_000,
            timestamp: 999,
        }
    );
}

#[test]
fn exercise_is_gated_by_expiry() {
    let accounts = exercise_accounts();
    assert_eq!(accounts.validate(999), Ok(()));
    assert_eq!(accounts.validate(1_000), Err(ErrorCode::ContractExpired));
    assert_eq!(option_exercise(&accounts, 1, 1_000).unwrap_err(), ErrorCode::ContractExpired);
    assert_eq!(option_exercise(&accounts, 1, i64::MAX).unwrap_err(), ErrorCode::ContractExpired);
    assert!(option_exercise(&accounts, 1, i64::MIN).is_ok());
}

#[test]
fn exercise_fee_must_go_to_the_fee_owner() {
    let mut a = exercise_accounts();
    a.exercise_fee_destination.owner = k(USER);
    assert_eq!(a.validate(0), Err(ErrorCode::Unauthorized));
    assert_eq!(option_exercise(&a, 1, 0).unwrap_err(), ErrorCode::Unauthorized);
    a.option_mint = k(99);
    assert_eq!(a.validate(0), Err(ErrorCode::KeyMismatch));
}

#[test]
fn exercise_is_refused_on_foreign_accounts() {
    let mut a = exercise_accounts();
    a.exercise_token_source.mint = k(UNDERLYING);
    assert_eq!(a.validate(0), Err(ErrorCode::KeyMismatch));
    let mut a = exercise_accounts();
    a.collateral_token_destination.mint = k(QUOTE);
    assert_eq!(a.validate(0), Err(ErrorCode::KeyMismatch));
    let mut a = exercise_accounts();
    a.option_token_source.owner = k(99);
    assert_eq!(a.validate(0), Err(ErrorCode::KeyMismatch));
    let mut a = exercise_accounts();
    a.crate_exercise_tokens = k(99);
    assert_eq!(a.validate(0), Err(ErrorCode::KeyMismatch));
}

#[test]
fn exercise_overflow_is_refused() {
    let mut a = exercise_accounts();
    a.contract.strike = u64::MAX;
    assert_eq!(a.exercise(u64::MAX, 0).unwrap_err(), ErrorCode::ArithmeticOverflow);
    a.contract.strike = 0;
    assert_eq!(a.exercise(1, 0).unwrap_err(), ErrorCode::ArithmeticOverflow);
    // the payment fits, its product with the fee rate does not
    a.contract.strike = 1_000_000_000;
    assert_eq!(a.exercise(u64::MAX, 0).unwrap_err(), ErrorCode::ArithmeticOverflow);
    assert!(a.exercise(u64::MAX / 1_000, 0).is_ok());
}

#[test]
fn redeem_yields_burn_and_both_withdrawals() {
    let accounts = redeem_accounts(270, 60, 300);
    let (plan, event) = option_redeem(&accounts, 100, 1_000).unwrap();
    assert_eq!(
        plan,
        vec![
            Instruction::Burn { mint: k(WRITER_MINT), from: k(40), authority: k(USER), amount: 100 },
            free_withdraw(POOL, 41, 90),
            free_withdraw(PROCEEDS, 42, 20),
        ]
    );
    assert_eq!(
        event,
        OptionRedeemEvent { contract: k(CONTRACT), redeemer: k(USER), writer_amount: 100, timestamp: 1_000 }
    );
    let (double, _) = accounts.redeem(200, 1_000).unwrap();
    assert_eq!(double[1], free_withdraw(POOL, 41, 180));
    assert_eq!(double[2], free_withdraw(PROCEEDS, 42, 40));
}

#[test]
fn redeem_is_gated_by_expiry() {
    let accounts = redeem_accounts(270, 60, 300);
    assert_eq!(accounts.validate(999), Err(ErrorCode::ContractNotYetExpired));
    assert_eq!(accounts.validate(1_000), Ok(()));
    assert_eq!(accounts.validate(1_001), Ok(()));
    assert_eq!(option_redeem(&accounts, 1, 999).unwrap_err(), ErrorCode::ContractNotYetExpired);
    assert!(option_redeem(&accounts, 1, 1_000).is_ok());
}

#[test]
fn redeem_with_zero_writer_supply_is_refused() {
    let accounts = redeem_accounts(270, 60, 0);
    assert_eq!(accounts.redeem(0, 1_000).unwrap_err(), ErrorCode::ZeroDenominator);
    assert_eq!(option_redeem(&accounts, 10, 1_000).unwrap_err(), ErrorCode::ZeroDenominator);
}

#[test]
fn redeem_share_beyond_64_bits_is_refused() {
    let accounts = redeem_accounts(u64::MAX, 0, 1);
    assert_eq!(accounts.redeem(2, 1_000).unwrap_err(), ErrorCode::ArithmeticOverflow);
    let accounts = redeem_accounts(0, u64::MAX, 1);
    assert_eq!(accounts.redeem(2, 1_000).unwrap_err(), ErrorCode::ArithmeticOverflow);
}

#[test]
fn redeem_is_refused_on_foreign_accounts() {
    let mut a = redeem_accounts(1, 1, 1);
    a.crate_exercise_tokens.key = k(99);
    assert_eq!(a.validate(1_000), Err(ErrorCode::KeyMismatch));
    let mut a = redeem_accounts(1, 1, 1);
    a.writer_token_source.mint = k(99);
    assert_eq!(option_redeem(&a, 1, 1_000).unwrap_err(), ErrorCode::KeyMismatch);
}

#[test]
fn burn_yields_both_burns_and_a_free_withdrawal() {
    let accounts = burn_accounts(10, 12);
    for now in [0i64, 999, 1_000, 5_000] {
        let (plan, event) = option_burn(&accounts, 10, now).unwrap();
        assert_eq!(
            plan,
            vec![
                Instruction::Burn { mint: k(WRITER_MINT), from: k(50), authority: k(USER), amount: 10 },
                Instruction::Burn { mint: k(OPTION_MINT), from: k(51), authority: k(USER), amount: 10 },
                free_withdraw(POOL, 52, 10),
            ]
        );
        assert_eq!(
            event,
            Some(OptionBurnEvent { contract: k(CONTRACT), burner: k(USER), burn_amount: 10, timestamp: now })
        );
    }
}

#[test]
fn burn_of_nothing_succeeds_trivially() {
    let accounts = burn_accounts(0, 0);
    assert_eq!(option_burn(&accounts, 0, 5), Ok((vec![], None)));
}

#[test]
fn burn_beyond_either_balance_is_refused() {
    assert_eq!(burn_accounts(10, 12).burn(11, 0).unwrap_err(), ErrorCode::InsufficientFunds);
    assert_eq!(burn_accounts(12, 10).burn(11, 0).unwrap_err(), ErrorCode::InsufficientFunds);
    assert_eq!(option_burn(&burn_accounts(0, 0), 1, 0).unwrap_err(), ErrorCode::InsufficientFunds);
}

#[test]
fn burn_is_refused_on_foreign_accounts() {
    let mut a = burn_accounts(10, 10);
    a.writer_token_source.owner = k(99);
    assert_eq!(a.validate(), Err(ErrorCode::KeyMismatch));
    assert_eq!(option_burn(&a, 0, 0).unwrap_err(), ErrorCode::KeyMismatch);
    let mut a = burn_accounts(10, 10);
    a.crate_collateral_tokens = k(99);
    assert_eq!(a.validate(), Err(ErrorCode::KeyMismatch));
    assert_eq!(burn_accounts(10, 10).validate(), Ok(()));
}

#[test]
fn program_addresses_are_the_known_ones() {
    assert_eq!(token_program_id().to_bytes(), anchor_spl::token::ID.to_bytes());
    assert_eq!(
        associated_token_program_id().to_bytes(),
        spl_associated_token_account::id().to_bytes()
    );
}

#[test]
fn associated_token_address_is_the_derived_one() {
    for (wallet, mint) in [(1u8, 2u8), (2, 1), (4, 4), (0, 255), (200, 17)] {
        let expected = spl_associated_token_account::get_associated_token_address(
            &solana_key(&k(wallet)),
            &solana_key(&k(mint)),
        );
        let found = get_associated_token_address(&k(wallet), &k(mint)).unwrap();
        assert_eq!(found.to_bytes(), expected.to_bytes());
        assert_ne!(found, k(wallet));
        assert_ne!(found, k(mint));
    }
    assert_ne!(
        get_associated_token_address(&k(1), &k(2)),
        get_associated_token_address(&k(2), &k(1))
    );
}

#[test]
fn record_holds_the_terms_and_the_pools_given() {
    let accounts = creation();
    let c = accounts.record(7, -3, true, 9, k(70), k(71));
    assert_eq!(
        c,
        OptionsContract {
            underlying_mint: k(UNDERLYING),
            quote_mint: k(QUOTE),
            strike: 7,
            expiry_ts: -3,
            is_put: true,
            bump: 9,
            writer_mint: k(WRITER_MINT),
            writer_crate: k(CRATE),
            crate_collateral_tokens: k(70),
            crate_exercise_tokens: k(71),
            option_mint: k(OPTION_MINT),
        }
    );
}

#[test]
fn operations_test_expiry_themselves() {
    assert_eq!(write_accounts(10).write(1, 1_000).unwrap_err(), ErrorCode::ContractExpired);
    assert!(write_accounts(10).write(1, 999).is_ok());
    assert_eq!(exercise_accounts().exercise(1, 1_000).unwrap_err(), ErrorCode::ContractExpired);
    assert!(exercise_accounts().exercise(1, 999).is_ok());
    assert_eq!(
        redeem_accounts(1, 1, 1).redeem(1, 999).unwrap_err(),
        ErrorCode::ContractNotYetExpired
    );
    assert_eq!(
        redeem_accounts(1, 1, 0).redeem(1, 999).unwrap_err(),
        ErrorCode::ContractNotYetExpired
    );
    assert!(redeem_accounts(1, 1, 1).redeem(1, 1_000).is_ok());
    assert!(burn_accounts(1, 1).burn(1, i64::MAX).is_ok());
}

#[test]
fn exercise_beyond_holdings_is_refused() {
    let mut a = exercise_accounts();
    a.option_token_source.amount = 9;
    assert_eq!(a.exercise(10, 0).unwrap_err(), ErrorCode::InsufficientFunds);
    assert!(a.exercise(9, 0).is_ok());
    let mut a = exercise_accounts();
    a.exercise_token_source.amount = 19;
    assert_eq!(option_exercise(&a, 10, 0).unwrap_err(), ErrorCode::InsufficientFunds);
    a.exercise_token_source.amount = 20;
    assert!(option_exercise(&a, 10, 0).is_ok());
}

#[test]
fn redeem_beyond_holdings_of_writer_tokens_is_refused() {
    let accounts = redeem_accounts(270, 60, 300);
    assert_eq!(accounts.redeem(201, 1_000).unwrap_err(), ErrorCode::InsufficientFunds);
    assert!(accounts.redeem(200, 1_000).is_ok());
    let none_outstanding = redeem_accounts(270, 60, 0);
    assert_eq!(none_outstanding.redeem(201, 1_000).unwrap_err(), ErrorCode::ZeroDenominator);
}
