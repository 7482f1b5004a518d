//! The claim orchestrator: decides whether a payout may proceed under a
//! given mode, and produces the state mutation to apply once the owed amount
//! has actually moved.
//!
//! The transfer itself is the host's concern. A host that executes a real
//! transfer calls `prepare_claim`, moves the owed amount, and calls
//! `apply_claim` only on success, so that either both the transfer and the
//! state update commit or neither does. `claim` composes the two for the
//! paths where no transfer stands in between.

use vstd::prelude::*;

use crate::errors::ErrorCode;
use crate::math::{calculate_dividend, dividend_result};
use crate::schedule::{
    lemma_next_due_after_now, next_payout_overflows, next_payout_time, ScheduleCalculator,
};
use crate::state::{ClaimMode, UserStake};

verus! {

/// The receipt of a performed claim.
#[derive(Clone, Copy, Debug, PartialEq, Eq, Structural)]
pub struct ClaimOutcome {
    /// Amount actually paid out; `0` for a legal no-op claim.
    pub amount_paid: u64,
    /// The mode the claim ran under.
    pub mode: ClaimMode,
}

/// The mode-specific gate, applied after the owed amount is known.
///
/// `Auto` requires the auto-claim flag, a due instant that has arrived, and
/// an owed amount at or above the minimum threshold. `Manual` bypasses all
/// scheduling but still requires an owed amount above zero.
pub open spec fn claim_gate(stake: UserStake, mode: ClaimMode, owed: u64, now: int) -> Option<
    ErrorCode,
> {
    match mode {
        ClaimMode::Auto => {
            if !stake.auto_claim_enabled {
                Some(ErrorCode::AutoClaimDisabled)
            } else if now < stake.next_payout_date {
                Some(ErrorCode::PayoutNotDue)
            } else if owed < stake.min_dividend_amount {
                Some(ErrorCode::DividendBelowMinimum)
            } else {
                None
            }
        },
        ClaimMode::Manual => {
            if owed == 0 {
                Some(ErrorCode::NoDividendToClaim)
            } else {
                None
            }
        },
    }
}

/// What `prepare_claim` returns, for every input: the owed amount when the
/// claim may proceed, otherwise the first rejection — the dividend
/// calculation's own error, or the mode gate's.
pub open spec fn claim_decision(
    stake: UserStake,
    mode: ClaimMode,
    current_rate: u64,
    now: int,
) -> Result<u64, ErrorCode> {
    match dividend_result(stake.msol_amount, stake.base_sol_value, current_rate) {
        Err(e) => Err(e),
        Ok(owed) => match claim_gate(stake, mode, owed, now) {
            Some(e) => Err(e),
            None => Ok(owed),
        },
    }
}

/// The position after settling a payout of `owed` at `current_rate` and
/// `now`: the base rate is re-based so the paid appreciation is never counted
/// again, the audit trail advances, and — only under `Auto` — the schedule is
/// re-armed.
pub open spec fn settled_stake(
    stake: UserStake,
    mode: ClaimMode,
    owed: u64,
    current_rate: u64,
    now: i64,
) -> UserStake {
    UserStake {
        user: stake.user,
        msol_amount: stake.msol_amount,
        base_sol_value: current_rate,
        last_update: now,
        last_dividend: owed,
        total_dividends: (stake.total_dividends + owed) as u64,
        payout_schedule: stake.payout_schedule,
        next_payout_date: if mode is Auto {
            next_payout_time(stake.payout_schedule, now as int) as i64
        } else {
            stake.next_payout_date
        },
        min_dividend_amount: stake.min_dividend_amount,
        auto_claim_enabled: stake.auto_claim_enabled,
    }
}

/// Computes the owed amount and runs the mode gate, without touching the
/// position. Returns the amount the host must transfer before calling
/// `apply_claim`; an owed amount of `0` under `Auto` (with a zero threshold)
/// is a legal no-op that requires no transfer and no settlement.
pub fn prepare_claim(
    user_stake: &UserStake,
    mode: ClaimMode,
    current_rate: u64,
    current_timestamp: i64,
) -> (r: Result<u64, ErrorCode>)
    ensures
        r == claim_decision(*user_stake, mode, current_rate, current_timestamp as int),
{
    let owed = match calculate_dividend(
        user_stake.msol_amount,
        user_stake.base_sol_value,
        current_rate,
    ) {
        Ok(v) => v,
        Err(e) => {
            return Err(e);
        },
    };
    match mode {
        ClaimMode::Auto => {
            if !user_stake.auto_claim_enabled {
                return Err(ErrorCode::AutoClaimDisabled);
            }
            if current_timestamp < user_stake.next_payout_date {
                return Err(ErrorCode::PayoutNotDue);
            }
            if owed < user_stake.min_dividend_amount {
                return Err(ErrorCode::DividendBelowMinimum);
            }
        },
        ClaimMode::Manual => {
            if owed == 0 {
                return Err(ErrorCode::NoDividendToClaim);
            }
        },
    }
    Ok(owed)
}

/// Applies the settlement for a payout the host has just executed: re-bases
/// the rate, advances the audit trail, and — under `Auto` — re-arms the
/// schedule. Mutates nothing on failure, so an aborted claim leaves no
/// partial state.
pub fn apply_claim(
    user_stake: &mut UserStake,
    mode: ClaimMode,
    owed: u64,
    current_rate: u64,
    current_timestamp: i64,
) -> (r: Result<ClaimOutcome, ErrorCode>)
    requires
        current_timestamp >= 0,
        claim_decision(*old(user_stake), mode, current_rate, current_timestamp as int) == Ok::<
            u64,
            ErrorCode,
        >(owed),
        owed > 0,
    ensures
        ({
            let overflow = old(user_stake).total_dividends + owed > u64::MAX || (mode is Auto
                && next_payout_overflows(
                old(user_stake).payout_schedule,
                current_timestamp as int,
            ));
            if overflow {
                r == Err::<ClaimOutcome, ErrorCode>(ErrorCode::ArithmeticOverflow) && *final(user_stake) == *old(user_stake)
            } else {
                r == Ok::<ClaimOutcome, ErrorCode>(
                    ClaimOutcome { amount_paid: owed, mode },
                ) && *final(user_stake) == settled_stake(
                    *old(user_stake),
                    mode,
                    owed,
                    current_rate,
                    current_timestamp,
                )
            }
        }),
        old(user_stake).wf() ==> final(user_stake).wf(),
{
    let new_total = match user_stake.total_dividends.checked_add(owed) {
        Some(v) => v,
        None => {
            return Err(ErrorCode::ArithmeticOverflow);
        },
    };
    let new_next_payout = match mode {
        ClaimMode::Auto => {
            match ScheduleCalculator::calculate_next_payout(
                user_stake.payout_schedule,
                current_timestamp,
            ) {
                Ok(t) => t,
                Err(e) => {
                    return Err(e);
                },
            }
        },
        ClaimMode::Manual => user_stake.next_payout_date,
    };
    proof {
        if old(user_stake).wf() && mode is Auto && !(old(user_stake).payout_schedule is Disabled) {
            lemma_next_due_after_now(old(user_stake).payout_schedule, current_timestamp as int);
        }
    }
    user_stake.base_sol_value = current_rate;
    user_stake.last_update = current_timestamp;
    user_stake.last_dividend = owed;
    user_stake.total_dividends = new_total;
    user_stake.next_payout_date = new_next_payout;
    Ok(ClaimOutcome { amount_paid: owed, mode })
}

/// The whole claim step: computes the owed amount, gates it by mode, and —
/// when something is owed — settles the position, atomically: on any failure
/// the position is left exactly as it was.
///
/// A host whose transfer can itself fail must instead call `prepare_claim`,
/// perform the transfer, and call `apply_claim` only on its success.
pub fn claim(
    user_stake: &mut UserStake,
    mode: ClaimMode,
    current_rate: u64,
    current_timestamp: i64,
) -> (r: Result<ClaimOutcome, ErrorCode>)
    requires
        current_timestamp >= 0,
    ensures
        ({
            let decision = claim_decision(
                *old(user_stake),
                mode,
                current_rate,
                current_timestamp as int,
            );
            &&& decision matches Err(e) ==> r == Err::<ClaimOutcome, ErrorCode>(e) && *final(user_stake) == *old(user_stake)
            &&& decision matches Ok(owed) ==> ({
                let overflow = old(user_stake).total_dividends + owed > u64::MAX || (mode is Auto
                    && next_payout_overflows(
                    old(user_stake).payout_schedule,
                    current_timestamp as int,
                ));
                if owed == 0 {
                    r == Ok::<ClaimOutcome, ErrorCode>(ClaimOutcome { amount_paid: 0u64, mode })
                        && *final(user_stake) == *old(user_stake)
                } else if overflow {
                    r == Err::<ClaimOutcome, ErrorCode>(ErrorCode::ArithmeticOverflow) && *final(user_stake) == *old(user_stake)
                } else {
                    r == Ok::<ClaimOutcome, ErrorCode>(
                        ClaimOutcome { amount_paid: owed, mode },
                    ) && *final(user_stake) == settled_stake(
                        *old(user_stake),
                        mode,
                        owed,
                        current_rate,
                        current_timestamp,
                    )
                }
            })
        }),
        old(user_stake).wf() ==> final(user_stake).wf(),
{
    let owed = match prepare_claim(user_stake, mode, current_rate, current_timestamp) {
        Ok(v) => v,
        Err(e) => {
            return Err(e);
        },
    };
    if owed == 0 {
        return Ok(ClaimOutcome { amount_paid: 0, mode });
    }
    apply_claim(user_stake, mode, owed, current_rate, current_timestamp)
}

/// The cumulative payout total never decreases: settling a claim adds the
/// paid amount to it, and every rejected claim leaves the position untouched.
pub proof fn lemma_total_dividends_monotone(
    stake: UserStake,
    mode: ClaimMode,
    owed: u64,
    current_rate: u64,
    now: i64,
)
    requires
        stake.total_dividends + owed <= u64::MAX,
    ensures
        settled_stake(stake, mode, owed, current_rate, now).total_dividends
            == stake.total_dividends + owed,
        settled_stake(stake, mode, owed, current_rate, now).total_dividends
            >= stake.total_dividends,
{
}

/// Idempotence of automatic claims: once a claim has paid out at some rate,
/// an immediate second automatic claim at the same instant and rate finds
/// the position re-based to that rate, so the dividend calculation rejects
/// it with `RateNotIncreased` — nothing is ever paid twice on one rate
/// increase.
pub proof fn lemma_auto_claim_idempotent(stake: UserStake, owed: u64, current_rate: u64, now: i64)
    requires
        claim_decision(stake, ClaimMode::Auto, current_rate, now as int) == Ok::<u64, ErrorCode>(
            owed,
        ),
        owed > 0,
    ensures
        claim_decision(
            settled_stake(stake, ClaimMode::Auto, owed, current_rate, now),
            ClaimMode::Auto,
            current_rate,
            now as int,
        ) == Err::<u64, ErrorCode>(ErrorCode::RateNotIncreased),
{
}

} // verus!
