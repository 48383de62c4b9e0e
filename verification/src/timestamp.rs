//! ISO-8601 UTC rendering of OpenOT nanosecond timestamps.

use vstd::prelude::*;
use crate::contracts::PersistenceError;
use crate::text::{decimal, push_decimal, push_zero_padded, zero_pad};

verus! {

/// The UTC calendar and clock fields of one instant.
#[derive(Debug, Clone, Copy, PartialEq, Eq, Structural)]
pub struct UtcParts {
    pub year: i32,
    pub month: u8,
    pub day: u8,
    pub hour: u8,
    pub minute: u8,
    pub second: u8,
    pub nanosecond: u32,
}

/// The proleptic Gregorian date (year, month, day) of the day `z` days
/// after 1970-01-01, counted in 400-year eras of 146097 days that start on
/// 0000-03-01, with March as the first month of each year.
pub open spec fn civil_from_days(z: int) -> (int, int, int) {
    let shifted = z + 719468;
    let era = shifted / 146097;
    let day_of_era = shifted - era * 146097;
    let year_of_era = (day_of_era - day_of_era / 1460 + day_of_era / 36524 - day_of_era / 146096) / 365;
    let day_of_year = day_of_era - (365 * year_of_era + year_of_era / 4 - year_of_era / 100);
    let month_from_march = (5 * day_of_year + 2) / 153;
    let day = day_of_year - (153 * month_from_march + 2) / 5 + 1;
    let month = if month_from_march < 10 { month_from_march + 3 } else { month_from_march - 9 };
    let year = year_of_era + era * 400 + if month <= 2 { 1int } else { 0int };
    (year, month, day)
}

/// The UTC date of the instant `ns` nanoseconds after the Unix epoch.
pub open spec fn unix_nanos_date(ns: int) -> (int, int, int) {
    civil_from_days(ns / 1_000_000_000 / 86400)
}

/// The fields `time::OffsetDateTime` gives an instant `ns` nanoseconds
/// after the epoch: the proleptic Gregorian date of its UTC day, the clock
/// fields from the nanoseconds within the day.
pub open spec fn utc_fields_of(ns: nat, p: UtcParts) -> bool {
    let secs = ns / 1_000_000_000;
    let within_day = secs % 86400;
    &&& (p.year as int, p.month as int, p.day as int) == unix_nanos_date(ns as int)
    &&& 1970 <= p.year <= 9999
    &&& 1 <= p.month <= 12
    &&& 1 <= p.day <= 31
    &&& p.hour == within_day / 3600
    &&& p.minute == (within_day % 3600) / 60
    &&& p.second == within_day % 60
    &&& p.nanosecond == ns % 1_000_000_000
}

/// `time::OffsetDateTime::from_unix_timestamp_nanos` and its field getters.
/// The conversion refuses only instants outside the years the crate
/// represents (at least 1 through 9999); a `u64` of nanoseconds reaches
/// no further than the year 2554, so it always succeeds. The fields are
/// those `utc_fields_of` describes: the crate's proleptic Gregorian date of
/// the UTC day, at or after 1970, and the clock fields of the nanoseconds
/// within that day.
#[verifier::external_body]
fn utc_parts(ns: u64) -> (r: Result<UtcParts, String>)
    ensures
        r is Ok,
        r matches Ok(p) ==> (p.year as int, p.month as int, p.day as int) == unix_nanos_date(ns as int)
            && utc_fields_of(ns as nat, p),
{
    match time::OffsetDateTime::from_unix_timestamp_nanos(i128::from(ns)) {
        Ok(t) => Ok(
            UtcParts {
                year: t.year(),
                month: u8::from(t.month()),
                day: t.day(),
                hour: t.hour(),
                minute: t.minute(),
                second: t.second(),
                nanosecond: t.nanosecond(),
            },
        ),
        Err(error) => Err(error.to_string()),
    }
}

/// `YYYY-MM-DDTHH:MM:SS.NNNNNNNNNZ`
pub open spec fn iso_text(p: UtcParts) -> Seq<char> {
    zero_pad(decimal(p.year as nat), 4) + "-"@ + zero_pad(decimal(p.month as nat), 2) + "-"@ + zero_pad(
        decimal(p.day as nat),
        2,
    ) + "T"@ + zero_pad(decimal(p.hour as nat), 2) + ":"@ + zero_pad(decimal(p.minute as nat), 2) + ":"@
        + zero_pad(decimal(p.second as nat), 2) + "."@ + zero_pad(decimal(p.nanosecond as nat), 9) + "Z"@
}

/// Renders UTC fields as ISO-8601 with nanoseconds.
pub fn render_utc(p: UtcParts) -> (r: String)
    requires
        p.year >= 0,
    ensures
        r@ == iso_text(p),
{
    let mut out = String::new();
    push_zero_padded(&mut out, p.year as u64, 4);
    out.append("-");
    push_zero_padded(&mut out, p.month as u64, 2);
    out.append("-");
    push_zero_padded(&mut out, p.day as u64, 2);
    out.append("T");
    push_zero_padded(&mut out, p.hour as u64, 2);
    out.append(":");
    push_zero_padded(&mut out, p.minute as u64, 2);
    out.append(":");
    push_zero_padded(&mut out, p.second as u64, 2);
    out.append(".");
    push_zero_padded(&mut out, p.nanosecond as u64, 9);
    out.append("Z");
    out
}

/// The time of an event-log row: the instant rendered. Every `u64` instant
/// has a calendar date, so this never fails; should the calendar refuse
/// one, the message names the timestamp.
pub fn format_timestamp(timestamp_ns: u64) -> (r: Result<String, PersistenceError>)
    ensures
        r is Ok,
        r matches Ok(s) ==> exists|p: UtcParts| utc_fields_of(timestamp_ns as nat, p) && s@ == iso_text(p),
{
    match utc_parts(timestamp_ns) {
        Ok(p) => Ok(render_utc(p)),
        Err(detail) => {
            let mut m = String::new();
            m.append("OpenOT timestamp ");
            push_decimal(&mut m, timestamp_ns);
            m.append(" cannot be represented: ");
            m.append(detail.as_str());
            Err(PersistenceError::Commit(m))
        },
    }
}

/// The time of a loss or unresolved row: the instant rendered. Every `u64`
/// instant has a calendar date, so this never fails; should the calendar
/// refuse one, the message names the timestamp.
pub fn logging_timestamp(timestamp_ns: u64) -> (r: Result<String, PersistenceError>)
    ensures
        r is Ok,
        r matches Ok(s) ==> exists|p: UtcParts| utc_fields_of(timestamp_ns as nat, p) && s@ == iso_text(p),
{
    match utc_parts(timestamp_ns) {
        Ok(p) => Ok(render_utc(p)),
        Err(detail) => {
            let mut m = String::new();
            m.append("logging timestamp ");
            push_decimal(&mut m, timestamp_ns);
            m.append(": ");
            m.append(detail.as_str());
            Err(PersistenceError::Commit(m))
        },
    }
}

} // verus!
