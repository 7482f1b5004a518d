//! Error taxonomy of the engine.
//!
//! Every error is terminal for the current call; nothing is retried
//! internally, and no error is silently downgraded to a default value.

use vstd::prelude::*;

verus! {

/// Why a computation or a claim was rejected.
///
/// Validation errors (`InvalidWeekday`, `InvalidMonthDay`,
/// `InvalidCustomInterval`) reject a schedule update before it is persisted.
/// Gating errors (`AutoClaimDisabled`, `PayoutNotDue`, `DividendBelowMinimum`,
/// `NoDividendToClaim`) are expected, frequent "not yet" outcomes, not system
/// faults. `RateNotIncreased` reports a flat or declining rate;
/// `ArithmeticOverflow` reports an operation that would leave the native
/// unsigned width.
#[derive(Clone, Copy, Debug, PartialEq, Eq, Structural)]
pub enum ErrorCode {
    ArithmeticOverflow,
    RateNotIncreased,
    AutoClaimDisabled,
    PayoutNotDue,
    DividendBelowMinimum,
    NoDividendToClaim,
    InvalidWeekday,
    InvalidMonthDay,
    InvalidCustomInterval,
}

} // verus!
