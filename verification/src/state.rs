//! Data model of a stake position and its payout schedule.

use vstd::prelude::*;

use crate::errors::ErrorCode;

verus! {

/// When an automatic payout recurs.
///
/// `Weekly` carries a weekday in `0..=6` (0 = Sunday), `Monthly` a day of
/// month in `1..=28`, `Custom` a positive interval in seconds.
/// `ScheduleCalculator::validate_schedule` enforces those bounds; a violating
/// value must never be persisted.
#[derive(Clone, Copy, Debug, PartialEq, Eq, Structural)]
pub enum PayoutSchedule {
    /// Never auto-due.
    Disabled,
    /// A fixed 86 400 s interval from the last payout instant.
    Daily,
    /// The next occurrence of the given weekday (0 = Sunday), never today.
    Weekly(u8),
    /// The next occurrence of the given calendar day, approximated as
    /// thirty days ahead and then snapped to that day's midnight boundary.
    Monthly(u8),
    /// A fixed interval in seconds from the last payout instant.
    Custom(i64),
}

impl Default for PayoutSchedule {
    /// A fresh position has no automatic payouts.
    fn default() -> (s: Self)
        ensures
            s == PayoutSchedule::Disabled,
    {
        PayoutSchedule::Disabled
    }
}

/// Whether the given schedule parameters are within their documented bounds.
pub open spec fn schedule_valid(s: PayoutSchedule) -> bool {
    match s {
        PayoutSchedule::Disabled => true,
        PayoutSchedule::Daily => true,
        PayoutSchedule::Weekly(weekday) => weekday <= 6,
        PayoutSchedule::Monthly(day) => 1 <= day <= 28,
        PayoutSchedule::Custom(interval) => interval > 0,
    }
}

/// How a claim is gated.
#[derive(Clone, Copy, Debug, PartialEq, Eq, Structural)]
pub enum ClaimMode {
    /// Subject to the schedule, the due date and the minimum threshold.
    Auto,
    /// Bypasses scheduling, but still requires an owed amount above zero.
    Manual,
}

/// A user's stake position: the per-owner state the engine reads and writes.
///
/// `msol_amount` counts receipt-token base units (fixed-point precision 1e9).
/// `base_sol_value` is the exchange rate recorded when the position was
/// opened or last settled; every successful payout re-bases it to the rate
/// observed at claim time, so appreciation is never paid twice.
/// `next_payout_date` is seconds since the epoch; `0` means no automatic
/// payout is pending.
#[derive(Clone, Copy, Debug, PartialEq, Eq, Structural)]
pub struct UserStake {
    /// Identity handle of the owner; immutable after creation.
    pub user: u64,
    /// Receipt-token base units held.
    pub msol_amount: u64,
    /// Exchange rate at opening or at the last settled payout.
    pub base_sol_value: u64,
    /// Instant of the last settlement.
    pub last_update: i64,
    /// Amount of the last payout.
    pub last_dividend: u64,
    /// Sum of all payouts so far; never decreases.
    pub total_dividends: u64,
    /// When an automatic payout recurs.
    pub payout_schedule: PayoutSchedule,
    /// Instant the next automatic payout is due, `0` for none pending.
    pub next_payout_date: i64,
    /// Smallest owed amount allowed to trigger an automatic payout.
    pub min_dividend_amount: u64,
    /// Gate for automatic claims, independent of the schedule.
    pub auto_claim_enabled: bool,
}

impl UserStake {
    /// The position's invariant: only schedules within their documented
    /// bounds are ever persisted, and its timestamps never lie before the
    /// epoch.
    pub open spec fn wf(self) -> bool {
        &&& schedule_valid(self.payout_schedule)
        &&& self.last_update >= 0
        &&& self.next_payout_date >= 0
    }

    /// Opens a position: the base rate is fixed to the rate observed at
    /// deposit time, the audit trail starts empty, and automatic payouts are
    /// off until a schedule is set.
    pub fn new(user: u64, msol_amount: u64, base_sol_value: u64, now: i64) -> (s: Self)
        requires
            now >= 0,
        ensures
            s == (UserStake {
                user,
                msol_amount,
                base_sol_value,
                last_update: now,
                last_dividend: 0u64,
                total_dividends: 0u64,
                payout_schedule: PayoutSchedule::Disabled,
                next_payout_date: 0i64,
                min_dividend_amount: 0u64,
                auto_claim_enabled: false,
            }),
            s.wf(),
    {
        UserStake {
            user,
            msol_amount,
            base_sol_value,
            last_update: now,
            last_dividend: 0,
            total_dividends: 0,
            payout_schedule: PayoutSchedule::Disabled,
            next_payout_date: 0,
            min_dividend_amount: 0,
            auto_claim_enabled: false,
        }
    }

    /// Records a deposit: grows the held amount and re-bases the position to
    /// the rate observed at deposit time. Fails with `ArithmeticOverflow`
    /// when the new balance would not fit, mutating nothing.
    pub fn record_deposit(&mut self, amount: u64, current_rate: u64) -> (r: Result<
        (),
        ErrorCode,
    >)
        ensures
            old(self).msol_amount + amount > u64::MAX ==> r == Err::<(), ErrorCode>(
                ErrorCode::ArithmeticOverflow,
            ) && *final(self) == *old(self),
            old(self).msol_amount + amount <= u64::MAX ==> r == Ok::<(), ErrorCode>(
                (),
            ) && *final(self) == (UserStake {
                msol_amount: (old(self).msol_amount + amount) as u64,
                base_sol_value: current_rate,
                ..*old(self)
            }),
            old(self).wf() ==> final(self).wf(),
    {
        let new_amount = match self.msol_amount.checked_add(amount) {
            Some(v) => v,
            None => {
                return Err(ErrorCode::ArithmeticOverflow);
            },
        };
        self.msol_amount = new_amount;
        self.base_sol_value = current_rate;
        Ok(())
    }
}

/// An exchange-rate reading handed in by the host's rate source: the value of
/// one receipt-token unit in underlying base units, and when it was observed.
#[derive(Clone, Copy, Debug, PartialEq, Eq, Structural)]
pub struct MsolRate {
    /// Underlying base units per receipt-token unit.
    pub lamports_per_msol: u64,
    /// Instant the rate was observed, seconds since the epoch.
    pub last_updated: i64,
}

} // verus!
