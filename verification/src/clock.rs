//! Instants as microseconds since the Unix epoch, and chrono's rules for
//! moving them by whole seconds.

use vstd::prelude::*;

verus! {

/// The earliest instant chrono's `DateTime<Utc>` holds (year -262143), in microseconds.
pub const DATETIME_MIN_MICROS: i64 = -8_334_601_315_200_000_000i64;

/// The latest instant chrono's `DateTime<Utc>` holds (end of year 262142), in microseconds.
pub const DATETIME_MAX_MICROS: i64 = 8_210_266_876_799_999_999i64;

/// The largest number of seconds a chrono `TimeDelta` built from seconds holds.
pub const MAX_DELTA_SECONDS: i64 = 9_223_372_036_854_775i64;

/// The instants chrono's `DateTime<Utc>` can hold.
pub open spec fn in_datetime_range(us: int) -> bool {
    DATETIME_MIN_MICROS <= us <= DATETIME_MAX_MICROS
}

/// `now` moved by `secs` seconds, as chrono's `DateTime + TimeDelta::seconds`
/// computes it: `None` where chrono panics (the delta is out of `TimeDelta`'s
/// range, or the result is out of `DateTime`'s).
pub open spec fn shifted(now: int, secs: int) -> Option<int> {
    if -MAX_DELTA_SECONDS <= secs <= MAX_DELTA_SECONDS && in_datetime_range(
        now + secs * 1_000_000,
    ) {
        Some(now + secs * 1_000_000)
    } else {
        None
    }
}

/// chrono's `Utc::now().timestamp_micros()`: the current instant; all that is
/// said of it is that it lies in `DateTime`'s range and not before 1970
/// (chrono panics on a system clock set before the epoch).
#[verifier::external_body]
pub(crate) fn now_micros() -> (t: i64)
    ensures
        in_datetime_range(t as int),
        t >= 0,
{
    chrono::Utc::now().timestamp_micros()
}

/// `now` moved by `secs` seconds, or `None` where chrono would panic.
pub fn shift(now: i64, secs: i64) -> (r: Option<i64>)
    ensures
        r matches Some(t) ==> shifted(now as int, secs as int) == Some(t as int),
        r is None ==> shifted(now as int, secs as int) is None,
{
    if secs < -MAX_DELTA_SECONDS || secs > MAX_DELTA_SECONDS {
        return None;
    }
    let t: i128 = now as i128 + (secs as i128) * 1_000_000;
    if t < DATETIME_MIN_MICROS as i128 || t > DATETIME_MAX_MICROS as i128 {
        return None;
    }
    Some(t as i64)
}

/// `secs` multiplied by `factor`, or `None` when the product leaves `i64`.
pub fn checked_scale(secs: i64, factor: i64) -> (r: Option<i64>)
    requires
        0 < factor <= 86400,
    ensures
        r matches Some(p) ==> p == secs * factor,
        r is None ==> !(i64::MIN <= secs * factor <= i64::MAX),
{
    assert(-0x8000_0000_0000_0000 * 86400 <= secs * factor <= 0x7fff_ffff_ffff_ffff * 86400)
        by (nonlinear_arith)
        requires
            0 < factor <= 86400,
            i64::MIN <= secs <= i64::MAX,
    ;
    let p: i128 = secs as i128 * factor as i128;
    if p < i64::MIN as i128 || p > i64::MAX as i128 {
        None
    } else {
        Some(p as i64)
    }
}

/// The whole seconds of the instant `us` (chrono's `timestamp()`), rounding down.
pub fn seconds_of(us: i64) -> (s: i64)
    ensures
        s == (us as int) / 1_000_000,
{
    let q = us / 1_000_000;
    let r = us % 1_000_000;
    if r < 0 {
        assert(q * 1_000_000 + r == us);
        q - 1
    } else {
        assert(q * 1_000_000 + r == us);
        q
    }
}

} // verus!
