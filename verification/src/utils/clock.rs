//! Spans of time and dates, through chrono. Times are UNIX times in
//! milliseconds, the precision of the browser's clock.

use vstd::prelude::*;

verus! {

/// `t` is the UNIX time, in milliseconds, of a `chrono::DateTime`;
/// chrono's dates span about ±262 000 years, well within ±10^16 ms.
pub open spec fn is_utc_millis(t: int) -> bool {
    -10_000_000_000_000_000 <= t <= 10_000_000_000_000_000
}

/// Whole hours in a span of `ms` milliseconds, rounded toward zero.
pub open spec fn trunc_hours(ms: int) -> int {
    if ms >= 0 {
        ms / 3_600_000
    } else {
        -((-ms) / 3_600_000)
    }
}

/// Calls `chrono::TimeDelta::milliseconds(ms).num_hours()`. In chrono's
/// source the span holds `ms` split into whole seconds (rounded down) and
/// the nanoseconds left; `num_seconds` gives the seconds rounded toward
/// zero and `num_hours` is `num_seconds() / 3600`, so the result is the
/// span's whole hours rounded toward zero. `TimeDelta::milliseconds`
/// panics below `-i64::MAX`; `requires` leaves that span out.
#[verifier::external_body]
fn whole_hours(ms: i64) -> (h: i64)
    requires
        -9_223_372_036_854_775_807 <= ms,
    ensures
        h == trunc_hours(ms as int),
{
    chrono::TimeDelta::milliseconds(ms).num_hours()
}

/// Whole hours from `then` to `now`, rounded toward zero, as chrono's
/// `signed_duration_since(..).num_hours()` gives them for times in
/// milliseconds.
pub fn hours_between(now: i64, then: i64) -> (h: i64)
    requires
        is_utc_millis(now as int),
        is_utc_millis(then as int),
    ensures
        h == trunc_hours(now - then),
{
    whole_hours(now - then)
}

/// Whole minutes in a span of `ms` milliseconds, rounded toward zero.
pub open spec fn trunc_minutes(ms: int) -> int {
    if ms >= 0 {
        ms / 60_000
    } else {
        -((-ms) / 60_000)
    }
}

/// Calls `chrono::TimeDelta::milliseconds(ms).num_minutes()`. In chrono's
/// source `num_minutes` is `num_seconds() / 60`, and `num_seconds` gives
/// the span's seconds rounded toward zero, so the result is its whole
/// minutes rounded toward zero. `TimeDelta::milliseconds` panics below
/// `-i64::MAX`; `requires` leaves that span out.
#[verifier::external_body]
fn whole_minutes(ms: i64) -> (m: i64)
    requires
        -9_223_372_036_854_775_807 <= ms,
    ensures
        m == trunc_minutes(ms as int),
{
    chrono::TimeDelta::milliseconds(ms).num_minutes()
}

/// Whole minutes from `then` to `now`, rounded toward zero.
pub fn minutes_between(now: i64, then: i64) -> (m: i64)
    requires
        is_utc_millis(now as int),
        is_utc_millis(then as int),
    ensures
        m == trunc_minutes(now - then),
{
    whole_minutes(now - then)
}

/// The UNIX time, in milliseconds, of an RFC 3339 date and time, as
/// `chrono::DateTime::parse_from_rfc3339` reads it; nothing when the text
/// is not one.
pub uninterp spec fn rfc3339_millis(s: Seq<char>) -> Option<i64>;

/// Calls `chrono::DateTime::parse_from_rfc3339` and takes the parsed
/// time's `timestamp_millis()`. The grammar is named, not stated. A parsed
/// time lies in chrono's range of dates, whose times are within
/// `is_utc_millis`.
#[verifier::external_body]
pub(crate) fn parse_rfc3339_millis(s: &str) -> (r: Option<i64>)
    ensures
        r == rfc3339_millis(s@),
        r matches Some(t) ==> is_utc_millis(t as int),
{
    match chrono::DateTime::parse_from_rfc3339(s) {
        Ok(d) => Some(d.timestamp_millis()),
        Err(_) => None,
    }
}

/// Whole hours and minutes round toward zero: a span of at least zero
/// milliseconds holds its whole hours (minutes) and less than one more; a
/// negative span is the opposite of the positive one.
pub proof fn law_whole_units_round_toward_zero(ms: int)
    ensures
        ms >= 0 ==> trunc_hours(ms) * 3_600_000 <= ms < (trunc_hours(ms) + 1) * 3_600_000,
        ms >= 0 ==> trunc_minutes(ms) * 60_000 <= ms < (trunc_minutes(ms) + 1) * 60_000,
        ms < 0 ==> trunc_hours(ms) == -trunc_hours(-ms),
        ms < 0 ==> trunc_minutes(ms) == -trunc_minutes(-ms),
{
    if ms >= 0 {
        let h = ms / 3_600_000;
        let m = ms / 60_000;
        assert(h * 3_600_000 <= ms < (h + 1) * 3_600_000) by (nonlinear_arith)
            requires
                ms >= 0,
                h == ms / 3_600_000,
        ;
        assert(m * 60_000 <= ms < (m + 1) * 60_000) by (nonlinear_arith)
            requires
                ms >= 0,
                m == ms / 60_000,
        ;
    }
}

} // verus!
