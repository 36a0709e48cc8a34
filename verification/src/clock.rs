//! Calendar and clock conversions, performed by the `chrono` crate behind
//! trusted wrappers. The three parses are functions of their input text
//! alone, so their results are given names the contracts can speak of; the
//! two local-time items depend on the machine's clock and time zone, so
//! nothing is claimed about their values.

use vstd::prelude::*;

verus! {

/// What parsing text as a 24-hour `HH:MM` clock time yields:
/// the hour and the minute, or nothing when the text is not such a time.
pub uninterp spec fn clock_time_of(s: Seq<char>) -> Option<(u32, u32)>;

/// Relies on `chrono::NaiveTime::parse_from_str` with the `%H:%M` format:
/// the result is a function of the text alone, and a parsed hour and minute
/// are in range.
#[verifier::external_body]
pub fn parse_clock_time(s: &str) -> (r: Option<(u32, u32)>)
    ensures
        r == clock_time_of(s@),
        r matches Some(p) ==> p.0 < 24 && p.1 < 60,
{
    match chrono::NaiveTime::parse_from_str(s, "%H:%M") {
        Ok(t) => Some((chrono::Timelike::hour(&t), chrono::Timelike::minute(&t))),
        Err(_) => None,
    }
}

/// What reading text as an English three-letter month abbreviation (any
/// case) yields: the month's number, or nothing.
pub uninterp spec fn month_number_of(s: Seq<char>) -> Option<u32>;

/// Relies on `chrono::NaiveDate::parse_from_str` with the `%b %d %Y` format,
/// probed with a fixed day and year: the result is a function of the text
/// alone, and a parsed month number is in range.
#[verifier::external_body]
pub fn parse_month_number(s: &str) -> (r: Option<u32>)
    ensures
        r == month_number_of(s@),
        r matches Some(m) ==> 1 <= m && m <= 12,
{
    let probe = format!("{} 01 2000", s);
    match chrono::NaiveDate::parse_from_str(&probe, "%b %d %Y") {
        Ok(d) => Some(chrono::Datelike::month(&d)),
        Err(_) => None,
    }
}

/// What parsing text as an RFC 2822 date-time yields: the instant in
/// milliseconds since the Unix epoch, or nothing. The text carries its own
/// offset, so the result is a function of the text alone.
pub uninterp spec fn rfc2822_ms_of(s: Seq<char>) -> Option<i64>;

/// Relies on `chrono::DateTime::parse_from_rfc2822`: the result is a
/// function of the text alone.
#[verifier::external_body]
pub fn parse_rfc2822_ms(s: &str) -> (r: Option<i64>)
    ensures
        r == rfc2822_ms_of(s@),
{
    match chrono::DateTime::parse_from_rfc2822(s) {
        Ok(dt) => Some(dt.timestamp_millis()),
        Err(_) => None,
    }
}

/// Relies on `chrono::TimeZone::from_local_datetime` for the `Local` zone:
/// interprets a calendar date and clock time in the machine's time zone and
/// hands back the instant in milliseconds since the Unix epoch. The result
/// depends on the machine's zone database, so nothing is claimed of its
/// value; an invalid date, or a local time skipped by a zone transition,
/// yields nothing, and an ambiguous one resolves to the earlier instant.
#[verifier::external_body]
pub fn local_ymdhm_to_utc_ms(y: i32, mo: u32, d: u32, h: u32, mi: u32) -> (r: Option<i64>) {
    let date = chrono::NaiveDate::from_ymd_opt(y, mo, d)?;
    let time = chrono::NaiveTime::from_hms_opt(h, mi, 0)?;
    let naive = date.and_time(time);
    match chrono::TimeZone::from_local_datetime(&chrono::Local, &naive) {
        chrono::LocalResult::Single(dt) => Some(dt.with_timezone(&chrono::Utc).timestamp_millis()),
        chrono::LocalResult::Ambiguous(dt, _) => Some(
            dt.with_timezone(&chrono::Utc).timestamp_millis(),
        ),
        chrono::LocalResult::None => None,
    }
}

/// Relies on `chrono::Local::now`: the machine's current year, about which
/// nothing can be promised.
#[verifier::external_body]
pub fn current_local_year() -> (y: i32) {
    chrono::Datelike::year(&chrono::Local::now())
}

} // verus!
