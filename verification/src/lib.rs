//! Dividend accrual and payout scheduling engine for a liquid-staking receipt
//! token whose redemption rate rises over time.
//!
//! The library is pure computation: it turns a rate increase into an owed
//! payout amount, decides whether an automatic payout is currently due under a
//! recurring schedule, and advances the schedule after a payout. Reading the
//! current rate and the clock, and moving the funds, are the host's concern;
//! the host hands this engine plain values and applies the state it returns.

pub mod claim;
pub mod errors;
pub mod math;
pub mod schedule;
pub mod state;
