use vstd::prelude::*;
use chrono::{DateTime, Datelike, TimeDelta, Timelike};

verus! {

/// The time zones the bot reads its calendar in.
#[derive(Clone, Copy, Debug, PartialEq, Eq)]
pub enum Zone {
    SaoPaulo,
}

/// Day of the week (0 for Monday up to 6 for Sunday) of the instant `secs`
/// (seconds since the Unix epoch) on the wall clock of `zone`; `None` where
/// chrono cannot represent the instant.
pub uninterp spec fn zone_weekday(zone: Zone, secs: i64) -> Option<u32>;

/// Hour of the day of the instant `secs` on the wall clock of `zone`.
pub uninterp spec fn zone_hour(zone: Zone, secs: i64) -> Option<u32>;

/// The instant `days` whole days after `secs`, as chrono computes it.
pub uninterp spec fn days_after(secs: i64, days: i64) -> Option<i64>;

/// The instant on the same local date and time as `secs` in `zone`, with the
/// hour replaced by `hour`.
pub uninterp spec fn zone_with_hour(zone: Zone, secs: i64, hour: u32) -> Option<i64>;

/// As `zone_with_hour`, with the minute replaced.
pub uninterp spec fn zone_with_minute(zone: Zone, secs: i64, minute: u32) -> Option<i64>;

/// As `zone_with_hour`, with the second replaced.
pub uninterp spec fn zone_with_second(zone: Zone, secs: i64, second: u32) -> Option<i64>;

/// Calendar fields (year, month, day, hour, minute, second) of the instant
/// `secs` in UTC.
pub uninterp spec fn utc_fields(secs: i64) -> Option<(i32, u32, u32, u32, u32, u32)>;

/// `chrono::Utc::now`, as whole seconds since the Unix epoch (`timestamp`).
/// Nothing is known of the result: it is the time at which it is called.
#[verifier::external_body]
pub(crate) fn now_timestamp() -> i64 {
    chrono::Utc::now().timestamp()
}

/// `Datelike::weekday` of the local date in `zone` (through
/// `DateTime::from_timestamp` and `with_timezone`), as days since Monday:
/// chrono's `Weekday` has the seven variants matched below.
#[verifier::external_body]
pub(crate) fn local_weekday(zone: Zone, secs: i64) -> (r: Option<u32>)
    ensures
        r == zone_weekday(zone, secs),
        r matches Some(d) ==> d < 7,
{
    let tz = match zone {
        Zone::SaoPaulo => chrono_tz::America::Sao_Paulo,
    };
    let t = DateTime::from_timestamp(secs, 0)?.with_timezone(&tz);
    Some(
        match t.weekday() {
            chrono::Weekday::Mon => 0,
            chrono::Weekday::Tue => 1,
            chrono::Weekday::Wed => 2,
            chrono::Weekday::Thu => 3,
            chrono::Weekday::Fri => 4,
            chrono::Weekday::Sat => 5,
            chrono::Weekday::Sun => 6,
        },
    )
}

/// `Timelike::hour` of the local time in `zone`; chrono keeps it below 24.
#[verifier::external_body]
pub(crate) fn local_hour(zone: Zone, secs: i64) -> (r: Option<u32>)
    ensures
        r == zone_hour(zone, secs),
        r matches Some(h) ==> h < 24,
{
    let tz = match zone {
        Zone::SaoPaulo => chrono_tz::America::Sao_Paulo,
    };
    Some(DateTime::from_timestamp(secs, 0)?.with_timezone(&tz).hour())
}

/// `DateTime::checked_add_signed` with a `TimeDelta` of `days` days
/// (`TimeDelta::try_days`). Chrono adds the delta to the instant itself, so a
/// result is exactly `days` times 86400 seconds later; `None` where the delta
/// or the result is out of chrono's range.
#[verifier::external_body]
pub(crate) fn add_days(secs: i64, days: i64) -> (r: Option<i64>)
    ensures
        r == days_after(secs, days),
        r matches Some(t) ==> t == secs + days * 86400,
{
    let delta = TimeDelta::try_days(days)?;
    Some(DateTime::from_timestamp(secs, 0)?.checked_add_signed(delta)?.timestamp())
}

/// `DateTime::with_hour` on the local time in `zone`: `None` where the hour is
/// invalid or the new local time does not exist or is ambiguous. Chrono
/// replaces the hour of the local date and time and keeps the result only
/// where that local time maps to a single instant, so the result reads, on
/// the same wall clock, the same date with the new hour.
#[verifier::external_body]
pub(crate) fn with_local_hour(zone: Zone, secs: i64, hour: u32) -> (r: Option<i64>)
    ensures
        r == zone_with_hour(zone, secs, hour),
        r matches Some(t) ==> zone_hour(zone, t) == Some(hour) && zone_weekday(zone, t) == zone_weekday(zone, secs),
{
    let tz = match zone {
        Zone::SaoPaulo => chrono_tz::America::Sao_Paulo,
    };
    Some(DateTime::from_timestamp(secs, 0)?.with_timezone(&tz).with_hour(hour)?.timestamp())
}

/// `DateTime::with_minute` on the local time in `zone`: as with the hour, the
/// result keeps the local date and hour.
#[verifier::external_body]
pub(crate) fn with_local_minute(zone: Zone, secs: i64, minute: u32) -> (r: Option<i64>)
    ensures
        r == zone_with_minute(zone, secs, minute),
        r matches Some(t) ==> zone_hour(zone, t) == zone_hour(zone, secs) && zone_weekday(zone, t) == zone_weekday(
            zone,
            secs,
        ),
{
    let tz = match zone {
        Zone::SaoPaulo => chrono_tz::America::Sao_Paulo,
    };
    Some(DateTime::from_timestamp(secs, 0)?.with_timezone(&tz).with_minute(minute)?.timestamp())
}

/// `DateTime::with_second` on the local time in `zone`: as with the hour,
/// the result keeps the local date and hour.
#[verifier::external_body]
pub(crate) fn with_local_second(zone: Zone, secs: i64, second: u32) -> (r: Option<i64>)
    ensures
        r == zone_with_second(zone, secs, second),
        r matches Some(t) ==> zone_hour(zone, t) == zone_hour(zone, secs) && zone_weekday(zone, t) == zone_weekday(
            zone,
            secs,
        ),
{
    let tz = match zone {
        Zone::SaoPaulo => chrono_tz::America::Sao_Paulo,
    };
    Some(DateTime::from_timestamp(secs, 0)?.with_timezone(&tz).with_second(second)?.timestamp())
}

/// `DateTime::naive_utc` of the instant, read field by field (`year`, `month`,
/// `day`, `hour`, `minute`, `second`); chrono keeps the month in `1..=12`, the
/// day in `1..=31`, the hour below 24 and the minute and second below 60.
#[verifier::external_body]
pub(crate) fn utc_calendar(secs: i64) -> (r: Option<(i32, u32, u32, u32, u32, u32)>)
    ensures
        r == utc_fields(secs),
        r matches Some(f) ==> 1 <= f.1 <= 12 && 1 <= f.2 <= 31 && f.3 < 24 && f.4 < 60 && f.5 < 60,
{
    let n = DateTime::from_timestamp(secs, 0)?.naive_utc();
    Some((n.year(), n.month(), n.day(), n.hour(), n.minute(), n.second()))
}

} // verus!
