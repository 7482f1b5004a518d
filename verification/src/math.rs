//! Fixed-point financial arithmetic: the owed-dividend calculation and its
//! auxiliary fee, percentage, compound-interest and slippage helpers.

use vstd::prelude::*;

use crate::errors::ErrorCode;

verus! {

/// Fixed-point scale of the receipt token: base units per whole unit.
///
/// The receipt token carries nine decimals, so one whole unit is 1e9 base
/// units, and rates are expressed in the same scale. This one constant fixes
/// the divisor of every rate conversion in the engine.
pub const PRECISION: u64 = 1_000_000_000;

/// Basis-point denominator: 10 000 bps = 100 %.
pub const MAX_BPS: u64 = 10_000;

/// The owed amount for a stake of `msol_amount` base units whose rate rose
/// from `base` to `current`: the appreciation converted to underlying units,
/// truncated toward zero.
pub open spec fn dividend_amount(msol_amount: u64, base: u64, current: u64) -> int {
    (msol_amount * (current - base)) / (PRECISION as int)
}

/// What `calculate_dividend` returns, for every input.
pub open spec fn dividend_result(msol_amount: u64, base: u64, current: u64) -> Result<
    u64,
    ErrorCode,
> {
    if current <= base {
        Err(ErrorCode::RateNotIncreased)
    } else if msol_amount * (current - base) > u64::MAX {
        Err(ErrorCode::ArithmeticOverflow)
    } else {
        Ok(dividend_amount(msol_amount, base, current) as u64)
    }
}

/// Converts a rate increase into the owed payout amount.
///
/// Fails with `RateNotIncreased` when the rate is flat or declining — a
/// normal, expected outcome — and with `ArithmeticOverflow` when the raw
/// product leaves `u64`. Otherwise returns
/// `msol_amount * (current - base) / PRECISION`, truncated toward zero.
pub fn calculate_dividend(msol_amount: u64, base_sol_value: u64, current_sol_value: u64) -> (r:
    Result<u64, ErrorCode>)
    ensures
        r == dividend_result(msol_amount, base_sol_value, current_sol_value),
{
    if current_sol_value <= base_sol_value {
        return Err(ErrorCode::RateNotIncreased);
    }
    let value_diff = current_sol_value - base_sol_value;
    let raw_dividend = match msol_amount.checked_mul(value_diff) {
        Some(v) => v,
        None => {
            return Err(ErrorCode::ArithmeticOverflow);
        },
    };
    Ok(raw_dividend / PRECISION)
}

/// What `calculate_fee` returns, for every input: the basis-point share of
/// an amount, truncated toward zero.
pub open spec fn fee_result(amount: u64, fee_rate_bps: u64) -> Result<u64, ErrorCode> {
    if amount * fee_rate_bps > u64::MAX {
        Err(ErrorCode::ArithmeticOverflow)
    } else {
        Ok(((amount * fee_rate_bps) / (MAX_BPS as int)) as u64)
    }
}

/// Extracts a fee given in basis points: `amount * fee_rate_bps / 10_000`.
/// Returns `0` when the fee rate is zero; fails with `ArithmeticOverflow`
/// when the raw product leaves `u64`.
pub fn calculate_fee(amount: u64, fee_rate_bps: u64) -> (r: Result<u64, ErrorCode>)
    ensures
        r == fee_result(amount, fee_rate_bps),
        fee_rate_bps == 0 ==> r == Ok::<u64, ErrorCode>(0u64),
{
    match amount.checked_mul(fee_rate_bps) {
        Some(raw) => Ok(raw / MAX_BPS),
        None => Err(ErrorCode::ArithmeticOverflow),
    }
}

/// What `calculate_percentage` returns, for every input.
pub open spec fn percentage_result(value: u64, pct: u64) -> Result<u64, ErrorCode> {
    if value * pct > u64::MAX {
        Err(ErrorCode::ArithmeticOverflow)
    } else {
        Ok(((value * pct) / 100) as u64)
    }
}

/// Extracts a whole-percent share: `value * pct / 100`. Returns `0` when the
/// percentage is zero; fails with `ArithmeticOverflow` when the raw product
/// leaves `u64`.
pub fn calculate_percentage(value: u64, pct: u64) -> (r: Result<u64, ErrorCode>)
    ensures
        r == percentage_result(value, pct),
        pct == 0 ==> r == Ok::<u64, ErrorCode>(0u64),
{
    match value.checked_mul(pct) {
        Some(raw) => Ok(raw / 100),
        None => Err(ErrorCode::ArithmeticOverflow),
    }
}

/// A flat rate never owes a dividend: whenever the current rate is at or
/// below the base rate, the calculation reports `RateNotIncreased`.
pub proof fn lemma_flat_rate_owes_nothing(msol_amount: u64, base: u64, current: u64)
    requires
        current <= base,
    ensures
        dividend_result(msol_amount, base, current) == Err::<u64, ErrorCode>(
            ErrorCode::RateNotIncreased,
        ),
{
}

/// On every input free of overflow, the owed amount is exactly
/// `msol_amount * (current - base) / PRECISION` with integer truncation.
pub proof fn lemma_dividend_exact(msol_amount: u64, base: u64, current: u64)
    requires
        current > base,
        msol_amount * (current - base) <= u64::MAX,
    ensures
        dividend_result(msol_amount, base, current) == Ok::<u64, ErrorCode>(
            (dividend_amount(msol_amount, base, current)) as u64,
        ),
        dividend_amount(msol_amount, base, current) == msol_amount * (current - base) / (
        PRECISION as int),
{
}

/// The account value after compounding `principal` for `periods` periods at
/// `rate_bps` basis points per period, each step truncating toward zero:
/// `amount := amount * (10_000 + rate_bps) / 10_000`, applied `periods`
/// times.
pub open spec fn compound_amount(principal: u64, rate_bps: u64, periods: nat) -> int
    decreases periods,
{
    if periods == 0 {
        principal as int
    } else {
        compound_amount(principal, rate_bps, (periods - 1) as nat) * (10_000 + rate_bps) / 10_000
    }
}

/// Whether every multiplication on the way to `compound_amount` stays within
/// the `u128` working width.
pub open spec fn compound_fits(principal: u64, rate_bps: u64, periods: nat) -> bool
    decreases periods,
{
    if periods == 0 {
        true
    } else {
        compound_fits(principal, rate_bps, (periods - 1) as nat) && compound_amount(
            principal,
            rate_bps,
            (periods - 1) as nat,
        ) * (10_000 + rate_bps) <= u128::MAX
    }
}

/// `compound_fits` only ever shrinks: if all steps up to `n` stay within the
/// working width, so do all steps up to any earlier `m`.
proof fn lemma_compound_fits_prefix(principal: u64, rate_bps: u64, m: nat, n: nat)
    requires
        m <= n,
        compound_fits(principal, rate_bps, n),
    ensures
        compound_fits(principal, rate_bps, m),
    decreases n,
{
    if m < n {
        lemma_compound_fits_prefix(principal, rate_bps, m, (n - 1) as nat);
    }
}

/// Compounding never shrinks the account: each step multiplies by at least
/// `10_000 / 10_000`.
proof fn lemma_compound_amount_at_least_principal(principal: u64, rate_bps: u64, periods: nat)
    ensures
        compound_amount(principal, rate_bps, periods) >= principal,
    decreases periods,
{
    if periods > 0 {
        let prev = compound_amount(principal, rate_bps, (periods - 1) as nat);
        lemma_compound_amount_at_least_principal(principal, rate_bps, (periods - 1) as nat);
        assert(prev * (10_000 + rate_bps) >= prev * 10_000) by (nonlinear_arith)
            requires
                prev >= 0,
        ;
        vstd::arithmetic::div_mod::lemma_div_is_ordered(
            prev * 10_000,
            prev * (10_000 + rate_bps),
            10_000,
        );
        vstd::arithmetic::div_mod::lemma_div_multiples_vanish(prev, 10_000);
    }
}

/// Applies compound interest iteratively and returns the accrued interest:
/// the final amount minus the principal.
///
/// Returns `0` immediately when the rate or the period count is zero. Fails
/// with `ArithmeticOverflow` when any iteration's product leaves the `u128`
/// working width, or when the accrued interest does not fit `u64`.
pub fn calculate_compound_interest(principal: u64, rate_per_period: u64, periods: u64) -> (r:
    Result<u64, ErrorCode>)
    ensures
        rate_per_period == 0 || periods == 0 ==> r == Ok::<u64, ErrorCode>(0u64),
        rate_per_period > 0 && periods > 0 ==> ({
            let total = compound_amount(principal, rate_per_period, periods as nat);
            if !compound_fits(principal, rate_per_period, periods as nat) {
                r == Err::<u64, ErrorCode>(ErrorCode::ArithmeticOverflow)
            } else if total - principal > u64::MAX {
                r == Err::<u64, ErrorCode>(ErrorCode::ArithmeticOverflow)
            } else {
                r matches Ok(v) && v == total - principal
            }
        }),
{
    if rate_per_period == 0 || periods == 0 {
        return Ok(0);
    }
    let mut amount: u128 = principal as u128;
    let mut i: u64 = 0;
    while i < periods
        invariant
            rate_per_period > 0,
            0 < periods,
            0 <= i <= periods,
            compound_fits(principal, rate_per_period, i as nat),
            amount == compound_amount(principal, rate_per_period, i as nat),
            amount >= principal,
        decreases periods - i,
    {
        proof {
            lemma_compound_amount_at_least_principal(principal, rate_per_period, (i + 1) as nat);
        }
        amount = match amount.checked_mul(10_000u128 + rate_per_period as u128) {
            Some(raised) => raised / 10_000,
            None => {
                proof {
                    if compound_fits(principal, rate_per_period, periods as nat) {
                        lemma_compound_fits_prefix(
                            principal,
                            rate_per_period,
                            (i + 1) as nat,
                            periods as nat,
                        );
                    }
                }
                return Err(ErrorCode::ArithmeticOverflow);
            },
        };
        i = i + 1;
    }
    let interest: u128 = amount - principal as u128;
    if interest > u64::MAX as u128 {
        return Err(ErrorCode::ArithmeticOverflow);
    }
    Ok(interest as u64)
}

/// Acceptable slippage on a swap's expected output, in basis points: half a
/// percent.
pub const SLIPPAGE_BPS: u64 = 50;

/// What `calculate_min_out` returns, for every input.
pub open spec fn min_out_result(sol_amount: u64, rate: u64) -> Result<u64, ErrorCode> {
    if sol_amount * rate > u64::MAX {
        Err(ErrorCode::ArithmeticOverflow)
    } else {
        let expected = (sol_amount * rate) / (PRECISION as int);
        if expected * SLIPPAGE_BPS > u64::MAX {
            Err(ErrorCode::ArithmeticOverflow)
        } else {
            Ok((expected - expected * SLIPPAGE_BPS / (MAX_BPS as int)) as u64)
        }
    }
}

/// Computes the least acceptable output of a swap: the expected output at
/// the given rate (underlying base units per whole input unit), less the
/// slippage allowance of `SLIPPAGE_BPS`. Fails with `ArithmeticOverflow`
/// when an intermediate product leaves `u64`.
pub fn calculate_min_out(sol_amount: u64, rate: u64) -> (r: Result<u64, ErrorCode>)
    ensures
        r == min_out_result(sol_amount, rate),
{
    let expected = match sol_amount.checked_mul(rate) {
        Some(raw) => raw / PRECISION,
        None => {
            return Err(ErrorCode::ArithmeticOverflow);
        },
    };
    let allowance = match expected.checked_mul(SLIPPAGE_BPS) {
        Some(raw) => raw / MAX_BPS,
        None => {
            return Err(ErrorCode::ArithmeticOverflow);
        },
    };
    proof {
        vstd::arithmetic::div_mod::lemma_div_is_ordered(
            expected * SLIPPAGE_BPS,
            expected * (MAX_BPS as int),
            MAX_BPS as int,
        );
        vstd::arithmetic::div_mod::lemma_div_multiples_vanish(expected as int, MAX_BPS as int);
    }
    Ok(expected - allowance)
}

} // verus!
