use lendingpool::{
    init_bank, init_price_feed, set_price, Address, Authority, Bank, ErrorCode, InitBank,
    InitPriceFeed, PriceFeed, SetPrice, TokenAccount, UserAccount,
};

fn addr(tag: u8) -> Address {
    Address { bytes: [tag; 32] }
}

#[test]
fn addresses_are_equal_when_every_byte_is() {
    let a = addr(7);
    let mut b = addr(7);
    assert!(a == b);
    assert_eq!(a, b);
    b.bytes[31] = 8;
    assert!(a != b);
    b.bytes[31] = 7;
    b.bytes[0] = 0;
    assert!(a != b);
}

#[test]
fn the_unset_address_is_all_zero() {
    assert_eq!(Address::unset().bytes, [0u8; 32]);
    assert!(Address::unset().is_unset());
    assert!(addr(0).is_unset());
    assert!(!addr(1).is_unset());
    let mut last = addr(0);
    last.bytes[31] = 1;
    assert!(!last.is_unset());
    let mut first = addr(0);
    first.bytes[0] = 255;
    assert!(!first.is_unset());
}

#[test]
fn an_address_gives_its_bytes_in_order() {
    let mut a = addr(0);
    for i in 0..32 {
        a.bytes[i] = i as u8 * 3;
    }
    let v = a.to_vec();
    assert_eq!(v.len(), 32);
    for i in 0..32 {
        assert_eq!(v[i], i as u8 * 3);
    }
}

#[test]
fn every_error_has_its_message() {
    assert_eq!(
        ErrorCode::OverLTV.message(),
        "User does not have enough collateral to borrow this amount."
    );
    assert_eq!(ErrorCode::InsufficientFunds.message(), "Bank does not have enough funds.");
    assert_eq!(ErrorCode::OverRepay.message(), "Repayment amount exceeds borrowed amount.");
    assert_eq!(ErrorCode::MathOverflow.message(), "Math operation overflow");
    assert_eq!(
        ErrorCode::NotUndercollateralized.message(),
        "User is not undercollateralized, cannot liquidate."
    );
    assert_eq!(
        ErrorCode::AuthorizationError.message(),
        "Caller is not the authority of this account."
    );
}

#[test]
fn collateral_limit_is_the_percentage_of_amount_times_price() {
    let user = UserAccount { owner: addr(1), deposit_amount: 1_000, borrowed_amount: 0, bump: 0 };
    assert_eq!(user.collateral_limit(1, 50), Some(500));
    assert_eq!(user.collateral_limit(1, 80), Some(800));
    assert_eq!(user.collateral_limit(3, 50), Some(1_500));
    assert_eq!(user.collateral_limit(1, 0), Some(0));
    assert_eq!(user.collateral_limit(0, 50), Some(0));
    assert_eq!(user.collateral_limit(1, 100), Some(1_000));
    assert_eq!(user.collateral_limit(1, 150), Some(1_500));
}

#[test]
fn collateral_limit_rounds_down() {
    let user = UserAccount { owner: addr(1), deposit_amount: 999, borrowed_amount: 0, bump: 0 };
    // 999 * 1 * 33 / 100 = 329.67
    assert_eq!(user.collateral_limit(1, 33), Some(329));
    let tiny = UserAccount { owner: addr(1), deposit_amount: 1, borrowed_amount: 0, bump: 0 };
    assert_eq!(tiny.collateral_limit(1, 99), Some(0));
}

#[test]
fn collateral_limit_is_none_when_the_value_overflows() {
    let user =
        UserAccount { owner: addr(1), deposit_amount: u64::MAX, borrowed_amount: 0, bump: 0 };
    assert_eq!(user.collateral_limit(2, 1), None);
    assert_eq!(user.collateral_limit(1, 2), None);
    assert_eq!(user.collateral_limit(1, 1), Some(u64::MAX / 100));
    let half = UserAccount {
        owner: addr(1),
        deposit_amount: u64::MAX / 50,
        borrowed_amount: 0,
        bump: 0,
    };
    assert_eq!(half.collateral_limit(1, 50), Some(u64::MAX / 50 * 50 / 100));
    assert_eq!(half.collateral_limit(1, 51), None);
}

fn blank_bank() -> Bank {
    Bank {
        authority: addr(0),
        total_deposits: 11,
        total_borrowed: 22,
        mint: addr(0),
        bank_token_account: addr(0),
        liquidation_threshold: 33,
        max_ltv: 44,
        interest_rate: 55,
        last_updated: 66,
    }
}

#[test]
fn init_bank_opens_an_empty_pool() {
    let mut ctx = InitBank {
        bank: blank_bank(),
        mint: addr(2),
        bank_token_account: TokenAccount { key: addr(3), amount: 0 },
        signer: addr(1),
    };
    assert_eq!(init_bank(&mut ctx, 80, 50, 1_000, 1_700_000_000), Ok(()));
    assert_eq!(
        ctx.bank,
        Bank {
            authority: addr(1),
            total_deposits: 0,
            total_borrowed: 0,
            mint: addr(2),
            bank_token_account: addr(3),
            liquidation_threshold: 80,
            max_ltv: 50,
            interest_rate: 1_000,
            last_updated: 1_700_000_000,
        }
    );
    assert_eq!(ctx.mint, addr(2));
    assert_eq!(ctx.bank_token_account, TokenAccount { key: addr(3), amount: 0 });
    assert_eq!(ctx.signer, addr(1));
}

#[test]
fn init_bank_takes_the_parameters_as_given() {
    let mut ctx = InitBank {
        bank: blank_bank(),
        mint: addr(2),
        bank_token_account: TokenAccount { key: addr(3), amount: 9 },
        signer: addr(1),
    };
    assert_eq!(init_bank(&mut ctx, 250, u64::MAX, 0, -5), Ok(()));
    assert_eq!(ctx.bank.liquidation_threshold, 250);
    assert_eq!(ctx.bank.max_ltv, u64::MAX);
    assert_eq!(ctx.bank.interest_rate, 0);
    assert_eq!(ctx.bank.last_updated, -5);
}

#[test]
fn init_price_feed_records_price_decimals_and_authority() {
    let mut ctx = InitPriceFeed {
        price_feed: PriceFeed { price: 0, decimals: 0, authority: addr(0) },
        signer: addr(9),
    };
    assert_eq!(init_price_feed(&mut ctx, 42, 6), Ok(()));
    assert_eq!(ctx.price_feed, PriceFeed { price: 42, decimals: 6, authority: addr(9) });
    assert_eq!(ctx.signer, addr(9));
}

#[test]
fn set_price_by_the_authority_replaces_the_price() {
    let mut ctx = SetPrice {
        price_feed: PriceFeed { price: 42, decimals: 6, authority: addr(9) },
        authority: addr(9),
    };
    assert_eq!(set_price(&mut ctx, 0), Ok(()));
    assert_eq!(ctx.price_feed, PriceFeed { price: 0, decimals: 6, authority: addr(9) });
    assert_eq!(set_price(&mut ctx, u64::MAX), Ok(()));
    assert_eq!(ctx.price_feed, PriceFeed { price: u64::MAX, decimals: 6, authority: addr(9) });
    assert_eq!(ctx.authority, addr(9));
}

#[test]
fn set_price_by_anyone_else_is_refused() {
    let mut other = addr(9);
    other.bytes[31] = 10;
    let mut ctx = SetPrice {
        price_feed: PriceFeed { price: 42, decimals: 6, authority: addr(9) },
        authority: other,
    };
    let before = ctx;
    assert_eq!(set_price(&mut ctx, 43), Err(ErrorCode::AuthorizationError));
    assert_eq!(ctx, before);
}

#[test]
fn a_holder_signs_without_seeds() {
    let none: Vec<Vec<u8>> = Vec::new();
    assert_eq!(Authority::Signer(addr(4)).signer_seeds(), none);
}

#[test]
fn the_pool_signs_with_tag_asset_and_bump() {
    let mut mint = addr(0);
    for i in 0..32 {
        mint.bytes[i] = 100 + i as u8;
    }
    let seeds = Authority::Bank { mint, bump: 254 }.signer_seeds();
    assert_eq!(seeds.len(), 3);
    assert_eq!(seeds[0], b"bank".to_vec());
    assert_eq!(seeds[1], mint.bytes.to_vec());
    assert_eq!(seeds[2], vec![254u8]);
}
