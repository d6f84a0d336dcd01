use lendingpool::{Address, Bank, ErrorCode, BASIS_POINTS, SECONDS_PER_YEAR};

const YEAR: i64 = 31_536_000;

fn addr(tag: u8) -> Address {
    Address { bytes: [tag; 32] }
}

fn bank(total_deposits: u64, total_borrowed: u64, interest_rate: u64, last_updated: i64) -> Bank {
    Bank {
        authority: addr(1),
        total_deposits,
        total_borrowed,
        mint: addr(2),
        bank_token_account: addr(3),
        liquidation_threshold: 80,
        max_ltv: 50,
        interest_rate,
        last_updated,
    }
}

#[test]
fn constants_describe_a_year_of_basis_points() {
    assert_eq!(BASIS_POINTS, 10_000);
    assert_eq!(SECONDS_PER_YEAR, 31_536_000);
}

#[test]
fn one_year_at_ten_percent_on_a_thousand() {
    let mut b = bank(5_000, 1_000, 1_000, 0);
    assert_eq!(b.process_interest(YEAR), Ok(()));
    assert_eq!(b.total_borrowed, 1_100);
    assert_eq!(b.total_deposits, 5_100);
    assert_eq!(b.last_updated, YEAR);
}

#[test]
fn accrual_twice_at_one_timestamp_is_a_no_op() {
    let mut b = bank(5_000, 1_000, 1_000, 100);
    assert_eq!(b.process_interest(100 + YEAR), Ok(()));
    let once = b;
    assert_eq!(b.process_interest(100 + YEAR), Ok(()));
    assert_eq!(b, once);
}

#[test]
fn accrual_at_the_recorded_timestamp_changes_nothing() {
    let mut b = bank(5_000, 1_000, 1_000, 777);
    let before = b;
    assert_eq!(b.process_interest(777), Ok(()));
    assert_eq!(b, before);
}

#[test]
fn accrual_at_an_earlier_timestamp_changes_nothing() {
    let mut b = bank(5_000, 1_000, 1_000, 777);
    let before = b;
    assert_eq!(b.process_interest(776), Ok(()));
    assert_eq!(b, before);
    assert_eq!(b.process_interest(i64::MIN), Ok(()));
    assert_eq!(b, before);
}

#[test]
fn accrual_moves_both_totals_by_the_same_amount() {
    let mut b = bank(123_456_789, 98_765_432, 725, 1_000);
    let before = b;
    assert_eq!(b.process_interest(1_000 + 86_400 * 30), Ok(()));
    // 98_765_432 * 725 * 2_592_000 / 315_360_000_000, rounded down
    let interest = 588_533;
    assert_eq!(b.total_borrowed - before.total_borrowed, interest);
    assert_eq!(b.total_deposits - before.total_deposits, interest);
    assert!(b.total_borrowed >= before.total_borrowed);
    assert!(b.total_deposits >= before.total_deposits);
    assert_eq!(b.last_updated, 1_000 + 86_400 * 30);
    assert_eq!(b.authority, before.authority);
    assert_eq!(b.mint, before.mint);
    assert_eq!(b.bank_token_account, before.bank_token_account);
    assert_eq!(b.liquidation_threshold, before.liquidation_threshold);
    assert_eq!(b.max_ltv, before.max_ltv);
    assert_eq!(b.interest_rate, before.interest_rate);
}

#[test]
fn interest_is_rounded_down() {
    let mut b = bank(5_000, 1_000, 1_000, 0);
    assert_eq!(b.process_interest(YEAR - 1), Ok(()));
    assert_eq!(b.total_borrowed, 1_099);
    assert_eq!(b.total_deposits, 5_099);
    assert_eq!(b.last_updated, YEAR - 1);
}

#[test]
fn interest_below_one_unit_still_advances_the_clock() {
    let mut b = bank(5_000, 1_000, 1_000, 0);
    assert_eq!(b.process_interest(1), Ok(()));
    assert_eq!(b.total_borrowed, 1_000);
    assert_eq!(b.total_deposits, 5_000);
    assert_eq!(b.last_updated, 1);
}

#[test]
fn no_debt_no_interest() {
    let mut b = bank(5_000, 0, 1_000, 0);
    assert_eq!(b.process_interest(10 * YEAR), Ok(()));
    assert_eq!(b.total_borrowed, 0);
    assert_eq!(b.total_deposits, 5_000);
    assert_eq!(b.last_updated, 10 * YEAR);
}

#[test]
fn accrual_that_overflows_the_debt_is_refused() {
    let mut b = bank(0, u64::MAX, 10_000, 0);
    let before = b;
    assert_eq!(b.process_interest(YEAR), Err(ErrorCode::MathOverflow));
    assert_eq!(b, before);
}

#[test]
fn accrual_that_overflows_the_deposits_is_refused() {
    let mut b = bank(u64::MAX, 1_000, 1_000, 0);
    let before = b;
    assert_eq!(b.process_interest(YEAR), Err(ErrorCode::MathOverflow));
    assert_eq!(b, before);
}

#[test]
fn accrual_whose_product_leaves_128_bits_is_refused() {
    let mut b = bank(0, u64::MAX, u64::MAX, i64::MIN);
    let before = b;
    assert_eq!(b.process_interest(i64::MAX), Err(ErrorCode::MathOverflow));
    assert_eq!(b, before);
}

#[test]
fn accrual_over_the_longest_span_with_small_debt() {
    // 1 * 1 * (2^64 - 1) / 315_360_000_000 = 58_494_241
    let mut b = bank(10, 1, 1, i64::MIN);
    assert_eq!(b.process_interest(i64::MAX), Ok(()));
    assert_eq!(b.total_borrowed, 1 + 58_494_241);
    assert_eq!(b.total_deposits, 10 + 58_494_241);
    assert_eq!(b.last_updated, i64::MAX);
}

#[test]
fn accrual_up_to_the_top_of_the_range_succeeds() {
    // the interest is exactly 100, and the deposits land on u64::MAX
    let mut c = bank(u64::MAX - 100, 1_000, 1_000, 0);
    assert_eq!(c.process_interest(YEAR), Ok(()));
    assert_eq!(c.total_deposits, u64::MAX);
    assert_eq!(c.total_borrowed, 1_100);
    let mut d = bank(u64::MAX - 99, 1_000, 1_000, 0);
    assert_eq!(d.process_interest(YEAR), Err(ErrorCode::MathOverflow));
}
