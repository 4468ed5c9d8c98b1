//! Timing decisions of the arm controller: how long a movement lasts and how
//! it is cut into feedback steps.

use std::time::{Duration, SystemTime, SystemTimeError};
use vstd::prelude::*;

verus! {

/// Declares `std::time::SystemTime` so that it can stand in signatures.
#[verifier::external_type_specification]
#[verifier::external_body]
pub struct ExSystemTime(SystemTime);

/// Declares `std::time::SystemTimeError` so that it can stand in signatures.
#[verifier::external_type_specification]
#[verifier::external_body]
pub struct ExSystemTimeError(SystemTimeError);

/// Lower bound of a movement's duration, in milliseconds.
pub const MIN_ACTION_MILLIS: u64 = 1000;

/// Width of the window from which a movement's duration is drawn, in milliseconds.
pub const ACTION_MILLIS_SPREAD: u64 = 2000;

/// Nominal spacing of two feedback messages, in milliseconds.
pub const FEEDBACK_PERIOD_MILLIS: u128 = 200;

/// Number of nanoseconds in a second; `Duration::subsec_nanos` stays below it.
pub const NANOS_PER_SECOND: u32 = 1_000_000_000;

/// Duration, in milliseconds, that a clock reading of `nanos` sub-second
/// nanoseconds selects: between one and three seconds.
pub open spec fn action_millis_for(nanos: u32) -> u64 {
    (MIN_ACTION_MILLIS + (nanos as u64) % ACTION_MILLIS_SPREAD) as u64
}

/// `std::time::SystemTime::now`: the current wall-clock time.  Nothing is
/// stated of the result: it depends on the machine's clock.
#[verifier::external_body]
fn system_now() -> SystemTime {
    SystemTime::now()
}

/// `std::time::SystemTime::duration_since` with `UNIX_EPOCH` as the earlier
/// time.  Nothing is stated of the result: it depends on the clock reading
/// that the argument holds, which Verus does not see.
#[verifier::external_body]
fn elapsed_since_epoch(now: &SystemTime) -> Result<Duration, SystemTimeError> {
    now.duration_since(std::time::UNIX_EPOCH)
}

/// `std::time::Duration::subsec_nanos`: the fractional part of the duration
/// in nanoseconds, which std documents as always less than one billion.
/// Which value within that range comes back is left unsaid: a `Duration` is
/// opaque to Verus.
#[verifier::external_body]
fn subsec_nanos(d: &Duration) -> (nanos: u32)
    ensures
        nanos < NANOS_PER_SECOND,
{
    d.subsec_nanos()
}

/// Duration of a movement chosen from a clock reading of `nanos` sub-second
/// nanoseconds: `1000 + nanos % 2000` milliseconds.
pub fn action_millis_from_nanos(nanos: u32) -> (millis: u64)
    ensures
        millis == action_millis_for(nanos),
        MIN_ACTION_MILLIS <= millis < MIN_ACTION_MILLIS + ACTION_MILLIS_SPREAD,
{
    let spread: u64 = (nanos as u64) % ACTION_MILLIS_SPREAD;
    MIN_ACTION_MILLIS + spread
}

/// Duration, in milliseconds, that a clock reading selects: `reading` is the
/// sub-second part of the time since the Unix epoch in nanoseconds, or
/// nothing when the clock reads before the epoch, which counts as 0 ns and
/// gives one second.
pub open spec fn action_millis_for_reading(reading: Option<u32>) -> u64 {
    match reading {
        Some(nanos) => action_millis_for(nanos),
        None => action_millis_for(0),
    }
}

/// A clock reading that the wall clock can give: a sub-second part below one
/// billion nanoseconds, or nothing before the epoch.
pub open spec fn is_clock_reading(reading: Option<u32>) -> bool {
    reading matches Some(nanos) ==> nanos < NANOS_PER_SECOND
}

/// Duration of a movement chosen from a clock reading: `1000 + nanos % 2000`
/// milliseconds for a sub-second part of `nanos` nanoseconds, and 1000
/// milliseconds when the clock reads before the Unix epoch.
pub fn action_millis_from_reading(reading: Option<u32>) -> (millis: u64)
    ensures
        millis == action_millis_for_reading(reading),
        reading is None ==> millis == MIN_ACTION_MILLIS,
        MIN_ACTION_MILLIS <= millis < MIN_ACTION_MILLIS + ACTION_MILLIS_SPREAD,
{
    let nanos: u32 = match reading {
        Some(nanos) => nanos,
        None => 0,
    };
    action_millis_from_nanos(nanos)
}

/// Picks the duration of the next movement, in milliseconds, from the
/// sub-second part of the wall clock; a clock that reads before the Unix
/// epoch gives 1000 ms.  The result is a pseudo-random value in `[1000, 3000)`.
pub fn choose_action_duration() -> (millis: u64)
    ensures
        exists|reading: Option<u32>|
            is_clock_reading(reading) && millis == #[trigger] action_millis_for_reading(reading),
        MIN_ACTION_MILLIS <= millis < MIN_ACTION_MILLIS + ACTION_MILLIS_SPREAD,
{
    let now = system_now();
    let reading: Option<u32> = match elapsed_since_epoch(&now) {
        Ok(since_epoch) => Some(subsec_nanos(&since_epoch)),
        Err(_) => None,
    };
    let millis = action_millis_from_reading(reading);
    assert(is_clock_reading(reading) && millis == action_millis_for_reading(reading));
    millis
}

/// `total_ms` with the zero duration counted as one millisecond.
pub open spec fn clamped_total(total_ms: u128) -> u128 {
    if total_ms < 1 { 1 } else { total_ms }
}

/// Number of feedback steps that a movement of `total_ms` milliseconds is cut
/// into: one per 200 ms, at least one, truncated to `u32` as the code does.
pub open spec fn planned_steps(total_ms: u128) -> u32 {
    let per_period = clamped_total(total_ms) / FEEDBACK_PERIOD_MILLIS;
    #[verifier::truncate] ((if per_period < 1 { 1 } else { per_period }) as u32)
}

/// Pause between two feedback steps of a movement of `total_ms` milliseconds,
/// in milliseconds: the duration shared evenly among the steps, at least one,
/// truncated to `u64` as the code does.
pub open spec fn planned_step_millis(total_ms: u128) -> u64 {
    let share = clamped_total(total_ms) / (planned_steps(total_ms) as u128);
    #[verifier::truncate] ((if share < 1 { 1 } else { share }) as u64)
}

/// Splits a movement of `total_ms` milliseconds into feedback steps: returns
/// the number of steps and the pause before each, in milliseconds.
/// A duration whose step count truncates to zero would divide by zero: it is
/// left out.
pub fn feedback_plan(total_ms: u128) -> (plan: (u32, u64))
    requires
        planned_steps(total_ms) != 0,
    ensures
        plan.0 == planned_steps(total_ms),
        plan.1 == planned_step_millis(total_ms),
        plan.0 >= 1,
{
    let total: u128 = if total_ms < 1 { 1 } else { total_ms };
    let per_period: u128 = total / FEEDBACK_PERIOD_MILLIS;
    let steps_wide: u128 = if per_period < 1 { 1 } else { per_period };
    let steps: u32 = #[verifier::truncate] (steps_wide as u32);
    let share: u128 = total / (steps as u128);
    let step_wide: u128 = if share < 1 { 1 } else { share };
    (steps, #[verifier::truncate] (step_wide as u64))
}

/// Pacing law of the feedback plan: where the step count does not truncate,
/// the steps, each followed by its pause, fit within the movement's duration
/// and fill it up to less than one millisecond per step; and a movement of at
/// least 200 ms gets feedback no more often than every 200 ms.
pub proof fn lemma_feedback_plan_paces_duration(total_ms: u128)
    requires
        clamped_total(total_ms) < FEEDBACK_PERIOD_MILLIS * 0x1_0000_0000,
    ensures
        planned_steps(total_ms) >= 1,
        planned_steps(total_ms) * planned_step_millis(total_ms) <= clamped_total(total_ms),
        clamped_total(total_ms) < planned_steps(total_ms) * (planned_step_millis(total_ms) + 1),
        clamped_total(total_ms) >= FEEDBACK_PERIOD_MILLIS ==> planned_step_millis(total_ms)
            >= FEEDBACK_PERIOD_MILLIS,
{
    let t: int = clamped_total(total_ms) as int;
    let p: int = t / 200;
    let s: int = if p < 1 { 1 } else { p };
    assert(0 <= p < 0x1_0000_0000) by (nonlinear_arith)
        requires t < 200 * 0x1_0000_0000, t >= 1, p == t / 200;
    assert(planned_steps(total_ms) as int == s);
    assert(1 <= s <= t) by (nonlinear_arith)
        requires t >= 1, p == t / 200, s == if p < 1 { 1 } else { p };
    let q: int = t / s;
    assert(s * q <= t < s * (q + 1) && q >= 1) by (nonlinear_arith)
        requires 1 <= s <= t, q == t / s;
    assert(q < 0x1_0000_0000_0000_0000) by (nonlinear_arith)
        requires 1 <= s, q == t / s, t < 200 * 0x1_0000_0000;
    assert(planned_step_millis(total_ms) as int == q);
    if t >= 200 {
        assert(q >= 200) by (nonlinear_arith)
            requires t >= 200, p == t / 200, s == p, q == t / s;
    }
}

} // verus!
