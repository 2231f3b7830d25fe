use vstd::prelude::*;

use chrono::{Datelike, TimeZone, Timelike};

verus! {

/// A calendar date and time of day, without time zone (chrono's
/// `NaiveDateTime` as plain values).
#[derive(Debug, Clone, Copy, PartialEq, Eq, Structural)]
pub struct Timestamp {
    pub year: i32,
    pub month: u32,
    pub day: u32,
    pub hour: u32,
    pub minute: u32,
    pub second: u32,
    pub nanosecond: u32,
}

/// What `NaiveDateTime::parse_from_str(s, fmt)` yields.
pub uninterp spec fn naive_parse(s: Seq<char>, fmt: Seq<char>) -> Option<Timestamp>;

/// What `DateTime::parse_from_rfc3339(s)` yields, converted to UTC.
pub uninterp spec fn rfc3339_utc(s: Seq<char>) -> Option<Timestamp>;

/// What chrono's `NaiveDateTime::format(fmt)` writes for `ts`, when `ts` is
/// a valid date and time and `fmt` a format chrono can apply.
pub uninterp spec fn ts_format_text(ts: Timestamp, fmt: Seq<char>) -> Option<Seq<char>>;

/// The text of the UTC time `base` plus `micros` microseconds, when chrono
/// can represent both.
pub uninterp spec fn utc_plus_micros_text(base: Timestamp, micros: i64) -> Option<Seq<char>>;

/// The text of the UTC time `secs` seconds after the Unix epoch, when chrono
/// can represent it.
pub uninterp spec fn unix_time_text(secs: i64) -> Option<Seq<char>>;

/// Calls chrono's `NaiveDateTime::parse_from_str(s, fmt)`; the result is
/// believed to be `naive_parse(s, fmt)`, a function of the two strings.
/// chrono's format table gives `%Y-%m-%dT%H:%M:%S` as four-digit year and
/// two-digit month, day, hour, minute and second, zero-padded: parsing a
/// valid date and time written that way is claimed to give it back.
#[verifier::external_body]
pub(crate) fn parse_naive(s: &str, fmt: &str) -> (r: Option<Timestamp>)
    ensures
        r == naive_parse(s@, fmt@),
        forall|t: Timestamp|
            #![trigger datetime_text(t, 'T')]
            fmt@ == iso_datetime_format() && plain_writable(t) && t.nanosecond == 0 && s@
                == datetime_text(t, 'T') ==> r == Some(t),
{
    match chrono::NaiveDateTime::parse_from_str(s, fmt) {
        Ok(d) => Some(Timestamp {
            year: d.year(),
            month: d.month(),
            day: d.day(),
            hour: d.hour(),
            minute: d.minute(),
            second: d.second(),
            nanosecond: d.nanosecond(),
        }),
        Err(_) => None,
    }
}

/// Calls chrono's `DateTime::parse_from_rfc3339(s)` and converts the result
/// to UTC (`with_timezone(&Utc).naive_utc()`); the result is believed to be
/// `rfc3339_utc(s)`, a function of `s`.
#[verifier::external_body]
pub(crate) fn parse_rfc3339_utc(s: &str) -> (r: Option<Timestamp>)
    ensures
        r == rfc3339_utc(s@),
{
    match chrono::DateTime::parse_from_rfc3339(s) {
        Ok(d) => {
            let u = d.with_timezone(&chrono::Utc).naive_utc();
            Some(Timestamp {
                year: u.year(),
                month: u.month(),
                day: u.day(),
                hour: u.hour(),
                minute: u.minute(),
                second: u.second(),
                nanosecond: u.nanosecond(),
            })
        },
        Err(_) => None,
    }
}

/// Days from 1970-01-01 to the given proleptic Gregorian date (negative
/// before it).
pub open spec fn days_from_civil(y: int, m: int, d: int) -> int {
    let yy = if m <= 2 { y - 1 } else { y };
    let era = yy / 400;
    let yoe = yy - era * 400;
    let mp = (m + 9) % 12;
    let doy = (153 * mp + 2) / 5 + d - 1;
    let doe = yoe * 365 + yoe / 4 - yoe / 100 + doy;
    era * 146097 + doe - 719468
}

/// Whole seconds from 1970-01-01 00:00:00 to `t`, read as a time in one
/// fixed zone (the fraction of a second left out).
pub open spec fn timestamp_secs(t: Timestamp) -> int {
    days_from_civil(t.year as int, t.month as int, t.day as int) * 86400 + t.hour * 3600
        + t.minute * 60 + t.second
}

/// Whether `u` is `t` moved by a whole number of seconds strictly between
/// minus and plus one day, with the same fraction of a second: what
/// converting a local time to UTC by a fixed offset gives.
pub open spec fn shifted_within_a_day(u: Timestamp, t: Timestamp) -> bool {
    &&& u.nanosecond == t.nanosecond
    &&& -86400 < timestamp_secs(t) - timestamp_secs(u) < 86400
}

/// Calls chrono's `and_local_timezone(Local)` on `ts` and, when the local time
/// maps to a single instant, returns it in UTC (`naive_utc()`). chrono's
/// `Local` offset is a `FixedOffset`, always strictly within one day of UTC,
/// and the conversion subtracts it from the local time, keeping the fraction
/// of a second: that is what is claimed of a result. Which offset applies,
/// and whether the local time names a single instant at all, rest on the
/// machine's time zone and are left unsaid.
#[verifier::external_body]
pub(crate) fn local_to_utc(ts: Timestamp) -> (r: Option<Timestamp>)
    ensures
        r matches Some(u) ==> shifted_within_a_day(u, ts),
{
    let date = chrono::NaiveDate::from_ymd_opt(ts.year, ts.month, ts.day)?;
    let naive = date.and_hms_nano_opt(ts.hour, ts.minute, ts.second, ts.nanosecond)?;
    let u = naive.and_local_timezone(chrono::Local).single()?.naive_utc();
    Some(Timestamp {
        year: u.year(),
        month: u.month(),
        day: u.day(),
        hour: u.hour(),
        minute: u.minute(),
        second: u.second(),
        nanosecond: u.nanosecond(),
    })
}

/// The decimal digit character of `d` (0 to 9).
pub open spec fn digit_char(d: int) -> char {
    (d + 48) as char
}

/// `n` (at least 0) in decimal, zero-padded to `width` digits (its last
/// `width` digits where it has more).
pub open spec fn zero_padded(n: int, width: nat) -> Seq<char>
    decreases width,
{
    if width == 0 {
        seq![]
    } else {
        zero_padded(n / 10, (width - 1) as nat).push(digit_char(n % 10))
    }
}

/// `ts` as `yyyy-mm-dd`, `sep`, `HH:MM:SS`, each part zero-padded.
pub open spec fn datetime_text(ts: Timestamp, sep: char) -> Seq<char> {
    zero_padded(ts.year as int, 4) + seq!['-'] + zero_padded(ts.month as int, 2) + seq!['-']
        + zero_padded(ts.day as int, 2) + seq![sep] + zero_padded(ts.hour as int, 2) + seq![':']
        + zero_padded(ts.minute as int, 2) + seq![':'] + zero_padded(ts.second as int, 2)
}

/// `ts` as `yyyy-mm-dd HH:MM:SS`.
pub open spec fn plain_datetime_text(ts: Timestamp) -> Seq<char> {
    datetime_text(ts, ' ')
}

/// The strftime format of `datetime_text` with a `T` between date and time.
pub open spec fn iso_datetime_format() -> Seq<char> {
    "%Y-%m-%dT%H:%M:%S"@
}

/// The strftime format of `plain_datetime_text`.
pub open spec fn plain_datetime_format() -> Seq<char> {
    "%Y-%m-%d %H:%M:%S"@
}

/// Whether `ts` is a date and time chrono writes in the plain four-digit
/// form: a valid date and time of day in the years 0 to 9999, without a leap
/// second.
pub open spec fn plain_writable(ts: Timestamp) -> bool {
    &&& valid_date_time(ts.year, ts.month, ts.day, ts.hour, ts.minute, ts.second)
    &&& 0 <= ts.year <= 9999
    &&& ts.nanosecond < 1_000_000_000
}

/// Builds `ts` as a chrono `NaiveDateTime` (`NaiveDate::from_ymd_opt`,
/// `and_hms_nano_opt`) and writes it with `format(fmt)` (`write_to`, which
/// reports a format chrono cannot apply as an error rather than panicking);
/// `None` where either step fails. The result is believed to be
/// `ts_format_text(ts, fmt)`, a function of the two arguments. For the
/// format `%Y-%m-%d %H:%M:%S` and a date chrono writes with four year digits,
/// chrono's documentation gives the text (each field zero-padded), and that
/// is claimed too.
#[verifier::external_body]
pub(crate) fn format_timestamp(ts: Timestamp, fmt: &str) -> (r: Option<String>)
    ensures
        match r {
            Some(s) => ts_format_text(ts, fmt@) == Some(s@),
            None => ts_format_text(ts, fmt@) is None,
        },
        fmt@ == plain_datetime_format() && plain_writable(ts) ==> r is Some && r->0@
            == plain_datetime_text(ts),
{
    let date = chrono::NaiveDate::from_ymd_opt(ts.year, ts.month, ts.day)?;
    let naive = date.and_hms_nano_opt(ts.hour, ts.minute, ts.second, ts.nanosecond)?;
    let mut out = String::new();
    match naive.format(fmt).write_to(&mut out) {
        Ok(()) => Some(out),
        Err(_) => None,
    }
}

/// Calls chrono to take `base` as a UTC time (`NaiveDate::from_ymd_opt`,
/// `and_hms_nano_opt`, `Utc.from_utc_datetime`), adds `micros` microseconds
/// (`checked_add_signed` with `TimeDelta::microseconds`) and returns the
/// result's `to_string()`; the result is believed to be
/// `utc_plus_micros_text(base, micros)`, a function of the two arguments.
#[verifier::external_body]
pub(crate) fn utc_plus_micros(base: Timestamp, micros: i64) -> (r: Option<String>)
    ensures
        match r {
            Some(s) => utc_plus_micros_text(base, micros) == Some(s@),
            None => utc_plus_micros_text(base, micros) is None,
        },
{
    let date = chrono::NaiveDate::from_ymd_opt(base.year, base.month, base.day)?;
    let naive = date.and_hms_nano_opt(base.hour, base.minute, base.second, base.nanosecond)?;
    let start = chrono::Utc.from_utc_datetime(&naive);
    match start.checked_add_signed(chrono::TimeDelta::microseconds(micros)) {
        Some(d) => Some(d.to_string()),
        None => None,
    }
}

/// Calls chrono's `DateTime::<Utc>::from_timestamp(secs, 0)` and its
/// `to_string()`; the result is believed to be `unix_time_text(secs)`.
#[verifier::external_body]
pub(crate) fn unix_time(secs: i64) -> (r: Option<String>)
    ensures
        match r {
            Some(s) => unix_time_text(secs) == Some(s@),
            None => unix_time_text(secs) is None,
        },
{
    match chrono::DateTime::<chrono::Utc>::from_timestamp(secs, 0) {
        Some(d) => Some(d.to_string()),
        None => None,
    }
}

/// Gregorian leap year.
pub open spec fn is_leap_year(y: int) -> bool {
    (y % 4 == 0 && y % 100 != 0) || y % 400 == 0
}

/// Number of days of month `m` (1 to 12) in year `y`.
pub open spec fn days_in_month(y: int, m: int) -> int {
    if m == 2 {
        if is_leap_year(y) { 29 } else { 28 }
    } else if m == 4 || m == 6 || m == 9 || m == 11 {
        30
    } else {
        31
    }
}

/// Whether chrono can represent the given date and time of day: a year in
/// its range, an existing day of the month, and a time of day below 24:00:00.
pub open spec fn valid_date_time(y: i32, m: u32, d: u32, h: u32, mi: u32, s: u32) -> bool {
    &&& -262143 <= y <= 262142
    &&& 1 <= m <= 12
    &&& 1 <= d <= days_in_month(y as int, m as int)
    &&& h < 24
    &&& mi < 60
    &&& s < 60
}

/// The timestamp with the given parts and no fraction of a second.
pub open spec fn timestamp_of(y: i32, m: u32, d: u32, h: u32, mi: u32, s: u32) -> Timestamp {
    Timestamp { year: y, month: m, day: d, hour: h, minute: mi, second: s, nanosecond: 0 }
}

/// Builds a date and time from its parts with chrono (`NaiveDate::from_ymd_opt`,
/// `NaiveTime::from_hms_opt`, `NaiveDateTime::new`). Claimed, as chrono
/// documents it: `None` exactly when the date does not exist or is out of
/// chrono's range, or the time of day is out of range; else the parts,
/// unchanged, with no fraction of a second.
#[verifier::external_body]
pub(crate) fn naive_date_time(y: i32, m: u32, d: u32, h: u32, mi: u32, s: u32) -> (r: Option<Timestamp>)
    ensures
        r is Some <==> valid_date_time(y, m, d, h, mi, s),
        r is Some ==> r == Some(timestamp_of(y, m, d, h, mi, s)),
{
    let dd = chrono::NaiveDate::from_ymd_opt(y, m, d)?;
    let dt = chrono::NaiveTime::from_hms_opt(h, mi, s)?;
    let n = chrono::NaiveDateTime::new(dd, dt);
    Some(Timestamp {
        year: n.year(),
        month: n.month(),
        day: n.day(),
        hour: n.hour(),
        minute: n.minute(),
        second: n.second(),
        nanosecond: n.nanosecond(),
    })
}

} // verus!
