//! The clock of the service, and the arithmetic of instants and durations.
//! Instants are microseconds since the Unix epoch.

use vstd::prelude::*;

verus! {

/// Microseconds in a second, a minute and a day.
pub const MICROS_PER_SECOND: i64 = 1_000_000;
pub const MICROS_PER_MINUTE: i64 = 60_000_000;
pub const MICROS_PER_DAY: i64 = 86_400_000_000;

/// The most minutes and days that a duration can span (chrono's
/// `TimeDelta::minutes` and `TimeDelta::days` panic beyond these).
pub const MAX_TTL_MINUTES: i64 = 153_722_867_280_912;
pub const MAX_TTL_DAYS: i64 = 106_751_991_167;

/// The latest instant chrono can represent (`DateTime::<Utc>::MAX_UTC`, the
/// last microsecond of the year 262142), in microseconds since the epoch.
pub const MAX_CLOCK_MICROS: i64 = 8_210_266_876_799_999_999;

/// The current time: chrono's `Utc::now()`, in microseconds since the epoch
/// (`timestamp_micros`). `Utc::now` panics on a clock set before the epoch, and
/// its instant is a `DateTime<Utc>` made by `from_timestamp` from a duration
/// whose nanoseconds are below a second, so an instant that is returned lies
/// between the epoch and chrono's latest instant; nothing else is promised of
/// it.
#[verifier::external_body]
pub(crate) fn now_micros() -> (t: i64)
    ensures
        0 <= t <= MAX_CLOCK_MICROS,
{
    chrono::Utc::now().timestamp_micros()
}

/// `x` held within the range of `i64`.
pub open spec fn clamp_i64(x: int) -> i64 {
    if x < i64::MIN {
        i64::MIN
    } else if x > i64::MAX {
        i64::MAX
    } else {
        x as i64
    }
}

/// The instant `amount` units of `unit` microseconds after `t` (before it for
/// a negative amount), held within the range of `i64`.
pub open spec fn later_by(t: i64, amount: i64, unit: i64) -> i64 {
    clamp_i64(t + amount * unit)
}

/// The whole seconds in a span of microseconds, rounded toward zero (chrono's
/// `TimeDelta::num_seconds`).
pub open spec fn whole_seconds(micros: int) -> int {
    if micros >= 0 {
        micros / 1_000_000
    } else {
        -((-micros) / 1_000_000)
    }
}

/// The instant `amount * unit` microseconds after `t`, held within `i64`.
pub fn add_span(t: i64, amount: i64, unit: i64) -> (r: i64)
    requires
        0 < unit <= MICROS_PER_DAY,
    ensures
        r == later_by(t, amount, unit),
{
    assert(-0x8000_0000_0000_0000 * 86_400_000_000 <= amount * unit <= 0x8000_0000_0000_0000
        * 86_400_000_000) by (nonlinear_arith)
        requires
            0 < unit <= 86_400_000_000,
            -0x8000_0000_0000_0000 <= amount < 0x8000_0000_0000_0000,
    ;
    let prod: i128 = amount as i128 * unit as i128;
    let wide: i128 = t as i128 + prod;
    if wide < i64::MIN as i128 {
        i64::MIN
    } else if wide > i64::MAX as i128 {
        i64::MAX
    } else {
        wide as i64
    }
}

/// The whole seconds from `from` to `to`, rounded toward zero.
pub fn seconds_between(from: i64, to: i64) -> (r: i64)
    ensures
        r == whole_seconds(to - from),
{
    let d: i128 = to as i128 - from as i128;
    if d >= 0 {
        (d / 1_000_000) as i64
    } else {
        (0 - ((0 - d) / 1_000_000)) as i64
    }
}

} // verus!
