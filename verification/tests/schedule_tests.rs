use yieldflow::errors::ErrorCode;
use yieldflow::schedule::{ScheduleCalculator, SECONDS_PER_DAY};
use yieldflow::state::{PayoutSchedule, UserStake};

fn stake_with(
    auto_claim_enabled: bool,
    schedule: PayoutSchedule,
    min_dividend_amount: u64,
    next_payout_date: i64,
) -> UserStake {
    let mut stake = UserStake::new(7, 1_000_000_000, 1_000_000_000, 0);
    stake.auto_claim_enabled = auto_claim_enabled;
    stake.payout_schedule = schedule;
    stake.min_dividend_amount = min_dividend_amount;
    stake.next_payout_date = next_payout_date;
    stake
}

#[test]
fn next_payout_disabled_is_zero() {
    assert_eq!(
        ScheduleCalculator::calculate_next_payout(PayoutSchedule::Disabled, 1_700_000_000),
        Ok(0)
    );
}

#[test]
fn next_payout_daily_adds_one_day() {
    assert_eq!(
        ScheduleCalculator::calculate_next_payout(PayoutSchedule::Daily, 1_700_000_000),
        Ok(1_700_000_000 + SECONDS_PER_DAY)
    );
}

#[test]
fn next_payout_weekly_moves_to_chosen_weekday() {
    // The epoch instant 0 was a Thursday (weekday 4). Saturday (6) lies two
    // days ahead; Tuesday (2) five days ahead.
    assert_eq!(
        ScheduleCalculator::calculate_next_payout(PayoutSchedule::Weekly(6), 0),
        Ok(2 * SECONDS_PER_DAY)
    );
    assert_eq!(
        ScheduleCalculator::calculate_next_payout(PayoutSchedule::Weekly(2), 0),
        Ok(5 * SECONDS_PER_DAY)
    );
}

#[test]
fn next_payout_weekly_same_day_is_a_full_week() {
    // Scheduling for Thursday on a Thursday yields next week's Thursday,
    // never today — also from the middle of the day.
    assert_eq!(
        ScheduleCalculator::calculate_next_payout(PayoutSchedule::Weekly(4), 0),
        Ok(7 * SECONDS_PER_DAY)
    );
    let thursday_noon = 43_200;
    assert_eq!(
        ScheduleCalculator::calculate_next_payout(PayoutSchedule::Weekly(4), thursday_noon),
        Ok(thursday_noon + 7 * SECONDS_PER_DAY)
    );
}

#[test]
fn next_payout_monthly_snaps_to_midnight() {
    // From instant 1000: thirty days ahead is 2_593_000, its midnight is
    // 2_592_000, and day 5 offsets four further days.
    assert_eq!(
        ScheduleCalculator::calculate_next_payout(PayoutSchedule::Monthly(5), 1_000),
        Ok(2_592_000 + 4 * SECONDS_PER_DAY)
    );
    assert_eq!(
        ScheduleCalculator::calculate_next_payout(PayoutSchedule::Monthly(1), 0),
        Ok(30 * SECONDS_PER_DAY)
    );
}

#[test]
fn next_payout_custom_adds_interval() {
    assert_eq!(
        ScheduleCalculator::calculate_next_payout(PayoutSchedule::Custom(3_600), 1_000),
        Ok(4_600)
    );
    // The computation is total even for an interval that validation would
    // reject.
    assert_eq!(
        ScheduleCalculator::calculate_next_payout(PayoutSchedule::Custom(-500), 1_000),
        Ok(500)
    );
}

#[test]
fn next_payout_overflow_is_reported() {
    assert_eq!(
        ScheduleCalculator::calculate_next_payout(PayoutSchedule::Daily, i64::MAX - 100),
        Err(ErrorCode::ArithmeticOverflow)
    );
    assert_eq!(
        ScheduleCalculator::calculate_next_payout(PayoutSchedule::Custom(i64::MAX), 2),
        Err(ErrorCode::ArithmeticOverflow)
    );
}

#[test]
fn should_payout_requires_every_gate() {
    let due = stake_with(true, PayoutSchedule::Daily, 100, 1_000);
    assert!(ScheduleCalculator::should_payout(&due, 100, 1_000));
    assert!(ScheduleCalculator::should_payout(&due, 500, 2_000));

    let disabled_flag = stake_with(false, PayoutSchedule::Daily, 100, 1_000);
    assert!(!ScheduleCalculator::should_payout(&disabled_flag, 500, 2_000));

    let no_schedule = stake_with(true, PayoutSchedule::Disabled, 100, 1_000);
    assert!(!ScheduleCalculator::should_payout(&no_schedule, 500, 2_000));

    let below_minimum = stake_with(true, PayoutSchedule::Daily, 100, 1_000);
    assert!(!ScheduleCalculator::should_payout(&below_minimum, 99, 2_000));

    let not_yet_due = stake_with(true, PayoutSchedule::Daily, 100, 3_000);
    assert!(!ScheduleCalculator::should_payout(&not_yet_due, 500, 2_000));
}

#[test]
fn should_payout_false_right_after_rearming() {
    // Schedule round trip: apply calculate_next_payout to the position and,
    // with the clock unchanged, no payout is due any more.
    let now = 1_700_000_000;
    for schedule in [
        PayoutSchedule::Daily,
        PayoutSchedule::Weekly(3),
        PayoutSchedule::Monthly(15),
        PayoutSchedule::Custom(60),
    ] {
        let next = ScheduleCalculator::calculate_next_payout(schedule, now).unwrap();
        let stake = stake_with(true, schedule, 0, next);
        assert!(!ScheduleCalculator::should_payout(&stake, u64::MAX, now));
    }
}

#[test]
fn validate_schedule_boundaries() {
    let ok = [
        PayoutSchedule::Disabled,
        PayoutSchedule::Daily,
        PayoutSchedule::Weekly(0),
        PayoutSchedule::Weekly(6),
        PayoutSchedule::Monthly(1),
        PayoutSchedule::Monthly(28),
        PayoutSchedule::Custom(1),
    ];
    for schedule in ok {
        assert_eq!(ScheduleCalculator::validate_schedule(&schedule), Ok(()));
    }
    assert_eq!(
        ScheduleCalculator::validate_schedule(&PayoutSchedule::Weekly(7)),
        Err(ErrorCode::InvalidWeekday)
    );
    assert_eq!(
        ScheduleCalculator::validate_schedule(&PayoutSchedule::Monthly(0)),
        Err(ErrorCode::InvalidMonthDay)
    );
    assert_eq!(
        ScheduleCalculator::validate_schedule(&PayoutSchedule::Monthly(29)),
        Err(ErrorCode::InvalidMonthDay)
    );
    assert_eq!(
        ScheduleCalculator::validate_schedule(&PayoutSchedule::Custom(0)),
        Err(ErrorCode::InvalidCustomInterval)
    );
    assert_eq!(
        ScheduleCalculator::validate_schedule(&PayoutSchedule::Custom(-1)),
        Err(ErrorCode::InvalidCustomInterval)
    );
}

#[test]
fn set_schedule_persists_and_rearms() {
    let mut stake = UserStake::new(7, 1, 1, 0);
    let now = 1_000;
    assert_eq!(
        stake.set_schedule(PayoutSchedule::Custom(3_600), true, 250, now),
        Ok(())
    );
    assert_eq!(stake.payout_schedule, PayoutSchedule::Custom(3_600));
    assert!(stake.auto_claim_enabled);
    assert_eq!(stake.min_dividend_amount, 250);
    assert_eq!(stake.next_payout_date, 4_600);
}

#[test]
fn set_schedule_rejects_invalid_without_mutating() {
    let mut stake = UserStake::new(7, 1, 1, 0);
    let before = stake;
    assert_eq!(
        stake.set_schedule(PayoutSchedule::Monthly(29), true, 250, 1_000),
        Err(ErrorCode::InvalidMonthDay)
    );
    assert_eq!(stake, before);
    assert_eq!(
        stake.set_schedule(PayoutSchedule::Weekly(200), true, 250, 1_000),
        Err(ErrorCode::InvalidWeekday)
    );
    assert_eq!(stake, before);
    assert_eq!(
        stake.set_schedule(PayoutSchedule::Custom(0), true, 250, 1_000),
        Err(ErrorCode::InvalidCustomInterval)
    );
    assert_eq!(stake, before);
}

#[test]
fn default_schedule_is_disabled() {
    assert_eq!(PayoutSchedule::default(), PayoutSchedule::Disabled);
}
