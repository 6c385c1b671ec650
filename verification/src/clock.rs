//! Time-window computation and date rendering.
//!
//! The clock reading and the calendar conversion come from the `chrono`
//! crate through trusted wrappers; everything around them is verified.
use vstd::prelude::*;

verus! {

/// Seconds in one day, used for look-back windows.
pub const SECONDS_PER_DAY: u64 = 86400;

/// The `%Y-%m-%d` rendering of an epoch-seconds timestamp in UTC.  The
/// rendering depends on the timestamp alone.
pub uninterp spec fn date_text_of(ts: i64) -> Seq<char>;

/// The timestamps that `chrono` can represent as a `DateTime<Utc>`:
/// those of `DateTime::MIN_UTC` through `DateTime::MAX_UTC`.
pub open spec fn ts_in_date_range(ts: i64) -> bool {
    -8334601228800 <= ts <= 8210266876799
}

/// Relies on `chrono::DateTime::<Utc>::from_timestamp`, which returns a
/// date exactly for seconds within the representable range (its source
/// accepts every day number that `NaiveDate` can hold, from
/// `DateTime::MIN_UTC` through `DateTime::MAX_UTC`), and on its
/// `format("%Y-%m-%d")` rendering, which depends on the timestamp alone.
#[verifier::external_body]
pub fn format_date(ts: i64) -> (r: Option<String>)
    ensures
        r is Some <==> ts_in_date_range(ts),
        r matches Some(s) ==> s@ == date_text_of(ts),
{
    match chrono::DateTime::<chrono::Utc>::from_timestamp(ts, 0) {
        Some(dt) => Some(dt.format("%Y-%m-%d").to_string()),
        None => None,
    }
}

/// Relies on `std::time::SystemTime::now` and `duration_since` for the
/// clock reading, converted to signed epoch seconds: a reading before
/// the epoch gives negative seconds, and one beyond the representable
/// range saturates.  Nothing is assumed of the value, and unlike
/// `chrono::Utc::now` no clock setting can make the call panic.
#[verifier::external_body]
pub fn now_timestamp() -> (r: i64) {
    match std::time::SystemTime::now().duration_since(std::time::UNIX_EPOCH) {
        Ok(d) => i64::try_from(d.as_secs()).unwrap_or(i64::MAX),
        Err(e) => -(i64::try_from(e.duration().as_secs()).unwrap_or(i64::MAX)),
    }
}

/// Computes the epoch-seconds start of a window reaching `days` days
/// back from `now`.
pub fn start_time_from(now: i64, days: u32) -> (r: i64)
    requires
        i64::MIN + days * SECONDS_PER_DAY <= now,
    ensures
        r == now - days * SECONDS_PER_DAY,
{
    now - (days as i64) * (SECONDS_PER_DAY as i64)
}

/// Reads the clock and computes the start of the window reaching `days`
/// days back from now.  Returns the clock reading it acted on together
/// with the window start: whatever the clock reported, the start is
/// exactly that reading minus `days` whole days, except on a reading
/// within `days` days of the earliest representable instant
/// (unreachable with a real clock), where the window is clamped to
/// start at that instant.
pub fn get_start_time_for_days_ago(days: u32) -> (r: (i64, i64))
    ensures
        i64::MIN + days * SECONDS_PER_DAY <= r.0 ==> r.1 == r.0 - days * SECONDS_PER_DAY,
        i64::MIN + days * SECONDS_PER_DAY > r.0 ==> r.1 == i64::MIN,
{
    let now = now_timestamp();
    let back: i64 = (days as i64) * (SECONDS_PER_DAY as i64);
    proof {
        assert(0 <= days * SECONDS_PER_DAY <= 4294967295u64 * 86400) by (nonlinear_arith);
    }
    if i64::MIN + back <= now {
        (now, start_time_from(now, days))
    } else {
        (now, i64::MIN)
    }
}

} // verus!
