use yieldflow::errors::ErrorCode;
use yieldflow::math::{
    calculate_compound_interest, calculate_dividend, calculate_fee, calculate_min_out,
    calculate_percentage, MAX_BPS, PRECISION, SLIPPAGE_BPS,
};

#[test]
fn dividend_flat_rate_is_rejected() {
    assert_eq!(
        calculate_dividend(10_000_000_000, 1_000_000_000, 1_000_000_000),
        Err(ErrorCode::RateNotIncreased)
    );
}

#[test]
fn dividend_declining_rate_is_rejected() {
    assert_eq!(
        calculate_dividend(10_000_000_000, 1_000_000_000, 900_000_000),
        Err(ErrorCode::RateNotIncreased)
    );
}

#[test]
fn dividend_ten_units_ten_percent_is_one_unit() {
    // 10 receipt units at 1e9 precision, rate 1.0 -> 1.1: exactly one
    // underlying unit is owed.
    assert_eq!(
        calculate_dividend(10_000_000_000, 1_000_000_000, 1_100_000_000),
        Ok(1_000_000_000)
    );
}

#[test]
fn dividend_matches_formula_exactly() {
    let amt: u64 = 123_456_789;
    let base: u64 = 2_000_000_000;
    let cur: u64 = 2_345_678_901;
    let expected = (amt as u128 * (cur - base) as u128 / PRECISION as u128) as u64;
    assert_eq!(calculate_dividend(amt, base, cur), Ok(expected));
}

#[test]
fn dividend_truncates_toward_zero() {
    // 999_999_999 * 1 / 1e9 truncates to 0.
    assert_eq!(calculate_dividend(999_999_999, 5, 6), Ok(0));
    // 1_500_000_000 * 1 / 1e9 truncates to 1.
    assert_eq!(calculate_dividend(1_500_000_000, 5, 6), Ok(1));
}

#[test]
fn dividend_overflow_is_reported() {
    assert_eq!(
        calculate_dividend(u64::MAX, 0, 2),
        Err(ErrorCode::ArithmeticOverflow)
    );
}

#[test]
fn fee_basis_points_share() {
    // 250 bps of 12 345 = 12 345 * 250 / 10 000 = 308 (truncated).
    assert_eq!(calculate_fee(12_345, 250), Ok(308));
}

#[test]
fn fee_zero_rate_is_zero() {
    assert_eq!(calculate_fee(u64::MAX, 0), Ok(0));
}

#[test]
fn fee_full_rate_is_identity() {
    assert_eq!(calculate_fee(1_000_000, MAX_BPS), Ok(1_000_000));
}

#[test]
fn fee_overflow_is_reported() {
    assert_eq!(calculate_fee(u64::MAX, 2), Err(ErrorCode::ArithmeticOverflow));
}

#[test]
fn percentage_share() {
    assert_eq!(calculate_percentage(200, 7), Ok(14));
    assert_eq!(calculate_percentage(99, 50), Ok(49));
}

#[test]
fn percentage_zero_is_zero() {
    assert_eq!(calculate_percentage(u64::MAX, 0), Ok(0));
}

#[test]
fn percentage_overflow_is_reported() {
    assert_eq!(
        calculate_percentage(u64::MAX, 101),
        Err(ErrorCode::ArithmeticOverflow)
    );
}

#[test]
fn compound_interest_two_periods_ten_percent() {
    // 10 000 at 10% per period: 11 000 after one period, 12 100 after two;
    // the accrued interest is 2 100.
    assert_eq!(calculate_compound_interest(10_000, 1_000, 2), Ok(2_100));
}

#[test]
fn compound_interest_zero_rate_or_periods() {
    assert_eq!(calculate_compound_interest(10_000, 0, 5), Ok(0));
    assert_eq!(calculate_compound_interest(10_000, 500, 0), Ok(0));
}

#[test]
fn compound_interest_truncates_each_period() {
    // 1 * 10 001 / 10 000 truncates back to 1: no interest ever accrues.
    assert_eq!(calculate_compound_interest(1, 1, 3), Ok(0));
}

#[test]
fn compound_interest_overflow_is_reported() {
    // Doubling the full u64 range every period leaves u128 well before the
    // 200th period.
    assert_eq!(
        calculate_compound_interest(u64::MAX, 10_000, 200),
        Err(ErrorCode::ArithmeticOverflow)
    );
}

#[test]
fn compound_interest_large_but_fitting() {
    // One period of 100% exactly doubles: interest equals the principal.
    assert_eq!(
        calculate_compound_interest(1_000_000_000_000, 10_000, 1),
        Ok(1_000_000_000_000)
    );
}

#[test]
fn min_out_applies_slippage_allowance() {
    // 1e9 input units at a rate of 100 * 1e6 per whole unit: expected
    // 100_000_000, less 0.5% slippage = 99_500_000.
    assert_eq!(calculate_min_out(1_000_000_000, 100_000_000), Ok(99_500_000));
}

#[test]
fn min_out_slippage_is_half_percent() {
    assert_eq!(SLIPPAGE_BPS, 50);
    let expected: u64 = 10_000;
    let out = calculate_min_out(expected * PRECISION / 1_000_000, 1_000_000).unwrap();
    assert_eq!(out, expected - expected * SLIPPAGE_BPS / MAX_BPS);
}

#[test]
fn min_out_overflow_is_reported() {
    assert_eq!(
        calculate_min_out(u64::MAX, u64::MAX),
        Err(ErrorCode::ArithmeticOverflow)
    );
}
