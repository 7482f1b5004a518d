//! The payout schedule engine: a set of pure transition functions over a
//! schedule value and a clock reading, with no persisted state of their own.

use vstd::prelude::*;

use crate::errors::ErrorCode;
use crate::state::{schedule_valid, PayoutSchedule, UserStake};

verus! {

/// Seconds in one day.
pub const SECONDS_PER_DAY: i64 = 86_400;

/// The weekday (0 = Sunday .. 6 = Saturday) of an instant at or after the
/// epoch: day zero, 1970-01-01, was a Thursday, hence the offset of four.
pub open spec fn weekday_of(now: int) -> int {
    (now / 86_400 + 4) % 7
}

/// How many days lie between `now` and the next occurrence of `weekday`.
/// When `now` already falls on `weekday` this is a full seven days — "next
/// occurrence", never "today".
pub open spec fn days_until_weekday(weekday: u8, now: int) -> int {
    if weekday > weekday_of(now) {
        weekday - weekday_of(now)
    } else {
        7 - (weekday_of(now) - weekday)
    }
}

/// The next due instant for a schedule, as an unbounded integer: what
/// `ScheduleCalculator::calculate_next_payout` returns whenever it fits the
/// timestamp width.
pub open spec fn next_payout_time(s: PayoutSchedule, now: int) -> int {
    match s {
        PayoutSchedule::Disabled => 0,
        PayoutSchedule::Daily => now + 86_400,
        PayoutSchedule::Weekly(weekday) => now + days_until_weekday(weekday, now) * 86_400,
        PayoutSchedule::Monthly(day) => {
            let approx = now + 30 * 86_400;
            approx - (approx % 86_400) + (day - 1) * 86_400
        },
        PayoutSchedule::Custom(interval) => now + interval,
    }
}

/// Whether computing the next due instant leaves the timestamp width: either
/// the result itself does not fit, or (for the monthly approximation) the
/// thirty-day step taken on the way does not.
pub open spec fn next_payout_overflows(s: PayoutSchedule, now: int) -> bool {
    match s {
        PayoutSchedule::Disabled => false,
        PayoutSchedule::Daily => now + 86_400 > i64::MAX,
        PayoutSchedule::Weekly(_) => next_payout_time(s, now) > i64::MAX,
        PayoutSchedule::Monthly(_) => now + 30 * 86_400 > i64::MAX || next_payout_time(s, now)
            > i64::MAX,
        PayoutSchedule::Custom(_) => next_payout_time(s, now) > i64::MAX,
    }
}

/// Whether an automatic payout is due: the auto-claim gate is on, a schedule
/// is set, the owed amount reaches the minimum threshold, and the due instant
/// has arrived.
pub open spec fn should_payout_spec(stake: UserStake, current_dividend: u64, now: int) -> bool {
    &&& stake.auto_claim_enabled
    &&& !(stake.payout_schedule is Disabled)
    &&& current_dividend >= stake.min_dividend_amount
    &&& now >= stake.next_payout_date
}

/// The schedule engine's transition functions.
pub struct ScheduleCalculator;

impl ScheduleCalculator {
    /// Computes the instant the next automatic payout is due, given the
    /// schedule and the current time.
    ///
    /// `Disabled` yields `0` (none pending); `Daily` and `Custom` add a fixed
    /// interval; `Weekly` moves to the next occurrence of the weekday, a full
    /// week ahead when today already is that weekday; `Monthly` steps thirty
    /// days ahead, snaps to that day's midnight boundary and offsets to the
    /// chosen day of month — a deliberate approximation, not calendar-month
    /// accurate. Fails with `ArithmeticOverflow` when the computation leaves
    /// the timestamp width.
    pub fn calculate_next_payout(schedule: PayoutSchedule, current_timestamp: i64) -> (r: Result<
        i64,
        ErrorCode,
    >)
        requires
            current_timestamp >= 0,
        ensures
            !next_payout_overflows(schedule, current_timestamp as int) ==> (r matches Ok(t) && t
                == next_payout_time(schedule, current_timestamp as int)),
            next_payout_overflows(schedule, current_timestamp as int) ==> r == Err::<i64, ErrorCode>(
                ErrorCode::ArithmeticOverflow,
            ),
    {
        match schedule {
            PayoutSchedule::Disabled => Ok(0),
            PayoutSchedule::Daily => match current_timestamp.checked_add(SECONDS_PER_DAY) {
                Some(t) => Ok(t),
                None => Err(ErrorCode::ArithmeticOverflow),
            },
            PayoutSchedule::Weekly(weekday) => {
                let days_since_epoch: i64 = current_timestamp / SECONDS_PER_DAY;
                let current_weekday: i64 = (days_since_epoch + 4) % 7;
                let days_to_add: i64 = if (weekday as i64) > current_weekday {
                    weekday as i64 - current_weekday
                } else {
                    7 - (current_weekday - weekday as i64)
                };
                match current_timestamp.checked_add(days_to_add * SECONDS_PER_DAY) {
                    Some(t) => Ok(t),
                    None => Err(ErrorCode::ArithmeticOverflow),
                }
            },
            PayoutSchedule::Monthly(day_of_month) => {
                let approx: i64 = match current_timestamp.checked_add(30 * SECONDS_PER_DAY) {
                    Some(t) => t,
                    None => {
                        return Err(ErrorCode::ArithmeticOverflow);
                    },
                };
                let midnight: i64 = approx - approx % SECONDS_PER_DAY;
                match midnight.checked_add((day_of_month as i64 - 1) * SECONDS_PER_DAY) {
                    Some(t) => Ok(t),
                    None => Err(ErrorCode::ArithmeticOverflow),
                }
            },
            PayoutSchedule::Custom(interval_secs) => match current_timestamp.checked_add(
                interval_secs,
            ) {
                Some(t) => Ok(t),
                None => Err(ErrorCode::ArithmeticOverflow),
            },
        }
    }

    /// Decides whether an automatic payout should be executed now.
    ///
    /// Returns `false` whenever auto-claim is off, no schedule is set, or the
    /// owed amount is below the minimum threshold; otherwise reports whether
    /// the due instant has arrived.
    pub fn should_payout(user_stake: &UserStake, current_dividend: u64, current_timestamp: i64) -> (r:
        bool)
        ensures
            r == should_payout_spec(*user_stake, current_dividend, current_timestamp as int),
    {
        if !user_stake.auto_claim_enabled || user_stake.payout_schedule == PayoutSchedule::Disabled
            || current_dividend < user_stake.min_dividend_amount {
            return false;
        }
        current_timestamp >= user_stake.next_payout_date
    }

    /// Checks a schedule's parameters against their documented bounds:
    /// weekday in `0..=6`, day of month in `1..=28`, a positive custom
    /// interval. `Disabled` and `Daily` always pass.
    pub fn validate_schedule(schedule: &PayoutSchedule) -> (r: Result<(), ErrorCode>)
        ensures
            r is Ok <==> schedule_valid(*schedule),
            (*schedule matches PayoutSchedule::Weekly(day) && day > 6) ==> r == Err::<(), ErrorCode>(
                ErrorCode::InvalidWeekday,
            ),
            (*schedule matches PayoutSchedule::Monthly(day) && !(1 <= day <= 28)) ==> r == Err::<
                (),
                ErrorCode,
            >(ErrorCode::InvalidMonthDay),
            (*schedule matches PayoutSchedule::Custom(secs) && secs <= 0) ==> r == Err::<
                (),
                ErrorCode,
            >(ErrorCode::InvalidCustomInterval),
    {
        match schedule {
            PayoutSchedule::Weekly(day) => {
                if *day > 6 {
                    Err(ErrorCode::InvalidWeekday)
                } else {
                    Ok(())
                }
            },
            PayoutSchedule::Monthly(day) => {
                if *day < 1 || *day > 28 {
                    Err(ErrorCode::InvalidMonthDay)
                } else {
                    Ok(())
                }
            },
            PayoutSchedule::Custom(secs) => {
                if *secs <= 0 {
                    Err(ErrorCode::InvalidCustomInterval)
                } else {
                    Ok(())
                }
            },
            _ => Ok(()),
        }
    }
}

impl UserStake {
    /// Reconfigures the position's payout schedule: validates the new
    /// parameters, computes the next due instant from the current time, and
    /// persists all of it together. An invalid schedule or an overflowing
    /// due instant is rejected with the matching error and mutates nothing,
    /// so a violating schedule is never persisted.
    pub fn set_schedule(
        &mut self,
        schedule: PayoutSchedule,
        auto_claim: bool,
        min_amount: u64,
        current_timestamp: i64,
    ) -> (r: Result<(), ErrorCode>)
        requires
            current_timestamp >= 0,
        ensures
            (schedule matches PayoutSchedule::Weekly(day) && day > 6) ==> r == Err::<
                (),
                ErrorCode,
            >(ErrorCode::InvalidWeekday),
            (schedule matches PayoutSchedule::Monthly(day) && !(1 <= day <= 28)) ==> r == Err::<
                (),
                ErrorCode,
            >(ErrorCode::InvalidMonthDay),
            (schedule matches PayoutSchedule::Custom(secs) && secs <= 0) ==> r == Err::<
                (),
                ErrorCode,
            >(ErrorCode::InvalidCustomInterval),
            schedule_valid(schedule) && next_payout_overflows(schedule, current_timestamp as int)
                ==> r == Err::<(), ErrorCode>(ErrorCode::ArithmeticOverflow),
            r is Err ==> *final(self) == *old(self),
            r is Ok <==> schedule_valid(schedule) && !next_payout_overflows(
                schedule,
                current_timestamp as int,
            ),
            r is Ok ==> *final(self) == (UserStake {
                payout_schedule: schedule,
                auto_claim_enabled: auto_claim,
                min_dividend_amount: min_amount,
                next_payout_date: next_payout_time(schedule, current_timestamp as int) as i64,
                ..*old(self)
            }),
            old(self).wf() ==> final(self).wf(),
    {
        match ScheduleCalculator::validate_schedule(&schedule) {
            Ok(()) => (),
            Err(e) => {
                return Err(e);
            },
        }
        let next_due = match ScheduleCalculator::calculate_next_payout(
            schedule,
            current_timestamp,
        ) {
            Ok(t) => t,
            Err(e) => {
                return Err(e);
            },
        };
        proof {
            if !(schedule is Disabled) {
                lemma_next_due_after_now(schedule, current_timestamp as int);
            }
        }
        self.payout_schedule = schedule;
        self.auto_claim_enabled = auto_claim;
        self.min_dividend_amount = min_amount;
        self.next_payout_date = next_due;
        Ok(())
    }
}

/// A valid, enabled schedule always re-arms strictly into the future: its
/// next due instant lies after the clock reading it was computed from.
pub proof fn lemma_next_due_after_now(s: PayoutSchedule, now: int)
    requires
        now >= 0,
        schedule_valid(s),
        !(s is Disabled),
    ensures
        next_payout_time(s, now) > now,
{
    match s {
        PayoutSchedule::Weekly(weekday) => {
            assert(0 <= weekday_of(now) <= 6);
            assert(days_until_weekday(weekday, now) >= 1);
        },
        PayoutSchedule::Monthly(day) => {
            let approx = now + 30 * 86_400;
            assert(0 <= approx % 86_400 < 86_400);
        },
        _ => {},
    }
}

/// Schedule round trip: immediately after `calculate_next_payout` is applied
/// to a position, `should_payout` reports `false` for it — whatever the owed
/// amount, with the clock unchanged.
pub proof fn lemma_schedule_round_trip(stake: UserStake, current_dividend: u64, now: int)
    requires
        now >= 0,
        schedule_valid(stake.payout_schedule),
        stake.next_payout_date == next_payout_time(stake.payout_schedule, now),
    ensures
        !should_payout_spec(stake, current_dividend, now),
{
    if !(stake.payout_schedule is Disabled) {
        lemma_next_due_after_now(stake.payout_schedule, now);
    }
}

/// Weekly edge case: when `now` already falls on the scheduled weekday, the
/// next due instant is a full week ahead — never `now` itself.
pub proof fn lemma_weekly_same_day_is_next_week(weekday: u8, now: int)
    requires
        now >= 0,
        weekday <= 6,
        weekday_of(now) == weekday,
    ensures
        next_payout_time(PayoutSchedule::Weekly(weekday), now) == now + 7 * 86_400,
{
}

} // verus!
