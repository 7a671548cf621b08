use vstd::prelude::*;

verus! {

/// Greatest timestamp the formatter accepts: 9999-12-31 23:59:59 on the
/// Seoul wall clock (UTC+9), so the formatted year always has four digits.
pub const MAX_DISPLAY_TS: i64 = 253402268399;

/// The `Asia/Seoul` wall-clock rendering of a UNIX timestamp, formatted
/// `YYYY-MM-DD HH:MM:SS`. The rendering is a function of the timestamp
/// alone; what it is on a given timestamp is known only through
/// `format_seoul` below.
pub uninterp spec fn seoul_display_of(ts: int) -> Seq<char>;

/// Relies on chrono's `DateTime::<Utc>::from_timestamp` and strftime-style
/// `format`, and on chrono-tz's `Asia::Seoul` zone: converting a timestamp
/// to the Seoul wall clock and printing it `%Y-%m-%d %H:%M:%S` depends on
/// the timestamp alone, and the 19-character shape follows from `%Y` being
/// four digits for the years this range admits.
#[verifier::external_body]
pub(crate) fn format_seoul(ts: i64) -> (formatted: String)
    requires
        0 <= ts <= MAX_DISPLAY_TS,
    ensures
        formatted@ == seoul_display_of(ts as int),
        formatted@.len() == 19,
{
    let utc = chrono::DateTime::<chrono::Utc>::from_timestamp(ts, 0).unwrap();
    utc.with_timezone(&chrono_tz::Asia::Seoul)
        .format("%Y-%m-%d %H:%M:%S")
        .to_string()
}

/// Relies on chrono's `From<SystemTime>` conversion and `timestamp`: the
/// system clock as a UNIX timestamp. The conversion handles a clock set
/// before 1970 by yielding a negative timestamp rather than failing.
/// Nothing is promised of the value; callers must cope with any.
#[verifier::external_body]
pub(crate) fn now_timestamp() -> i64 {
    chrono::DateTime::<chrono::Utc>::from(std::time::SystemTime::now()).timestamp()
}

/// The system clock, clamped into the range the formatter accepts. Whatever
/// the clock returns, the result is a timestamp `update` may take.
pub fn clamped_now() -> (ts: i64)
    ensures
        0 <= ts <= MAX_DISPLAY_TS,
{
    let raw = now_timestamp();
    if raw < 0 {
        0
    } else if raw > MAX_DISPLAY_TS {
        MAX_DISPLAY_TS
    } else {
        raw
    }
}

} // verus!
