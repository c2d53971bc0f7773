//! Whole-tick time and the arithmetic of the fixed-step accumulator.
//!
//! The accumulator banks the time that has passed and pays it out in steps of a
//! sixtieth of a second. Time is counted in ticks, sixty million to the second,
//! so that one step is a whole number of them.

use vstd::prelude::*;

verus! {

/// Ticks in one second.
pub const TICKS_PER_SECOND: u64 = 60_000_000;

/// Ticks in one fixed step, a sixtieth of a second.
pub const TICKS_PER_STEP: i64 = 1_000_000;

/// The number of whole steps that must be taken from a balance of `balance`
/// ticks to bring it to zero or below: none where it is there already,
/// otherwise `balance` over the step, rounded up.
pub open spec fn steps_due(balance: int) -> int {
    if balance <= 0 {
        0
    } else {
        (balance + TICKS_PER_STEP - 1) / (TICKS_PER_STEP as int)
    }
}

/// What is left of a balance once the steps that are due have been taken.
pub open spec fn drained(balance: int) -> int {
    balance - steps_due(balance) * TICKS_PER_STEP
}

/// A balance that is not positive is left as it is.
pub proof fn lemma_drained_keeps_what_is_not_positive(balance: int)
    requires
        balance <= 0,
    ensures
        drained(balance) == balance,
{
}

/// A positive balance ends in the last step before zero: above minus one step,
/// at most zero, and a whole number of steps below where it began.
pub proof fn lemma_drained_ends_within_one_step(balance: int)
    requires
        balance > 0,
    ensures
        -TICKS_PER_STEP < drained(balance) <= 0,
        steps_due(balance) >= 1,
        (balance - drained(balance)) % (TICKS_PER_STEP as int) == 0,
{
}

/// Taking one step from a positive balance does not change where it ends.
pub proof fn lemma_drained_after_one_step(balance: int)
    requires
        balance > 0,
    ensures
        drained(balance - TICKS_PER_STEP) == drained(balance),
        steps_due(balance - TICKS_PER_STEP) == steps_due(balance) - 1,
{
}

/// Nanoseconds in one second.
pub const NANOS_PER_SECOND: u64 = 1_000_000_000;

/// The whole ticks in a span of `nanos` nanoseconds: three ticks to every
/// fifty nanoseconds, rounded down.
pub open spec fn ticks_in(nanos: int) -> int {
    nanos * 3 / 50
}

/// Converts a span of nanoseconds to ticks.
pub fn ticks_from_nanos(nanos: u64) -> (ticks: u64)
    ensures
        ticks == ticks_in(nanos as int),
{
    let tripled: u128 = nanos as u128 * 3;
    (tripled / 50) as u64
}

/// A second of nanoseconds is a second of ticks, and a sixtieth of it is one
/// step.
pub proof fn lemma_ticks_in_one_second()
    ensures
        ticks_in(NANOS_PER_SECOND as int) == TICKS_PER_SECOND,
        TICKS_PER_SECOND == 60 * TICKS_PER_STEP,
{
}

} // verus!
