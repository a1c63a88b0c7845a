//! The two places where timezone knowledge beyond plain arithmetic is needed:
//! reading a naive date-time in a named IANA zone, and rendering an instant in
//! that zone. Both are deferred to the chrono and chrono-tz crates behind
//! trusted wrappers; everything else in this crate works on plain values.

use chrono::TimeZone;
use core::str::FromStr;
use vstd::prelude::*;

verus! {

/// The UTC epoch second at which the naive date-time (y, mo, d, h, mi, s)
/// occurs in the IANA zone named `tz`, or nothing when the name is unknown,
/// the fields are invalid, or the local time is skipped or repeated at a zone
/// transition. The zone table is compiled into the chrono-tz crate, so this
/// is a function of the arguments alone.
pub uninterp spec fn local_epoch_of(
    tz: Seq<char>,
    y: int,
    mo: int,
    d: int,
    h: int,
    mi: int,
    s: int,
) -> Option<i64>;

/// How an instant is rendered in the IANA zone named `tz`. The rendering is a
/// function of the zone name and the instant alone.
pub uninterp spec fn zoned_display_of(tz: Seq<char>, secs: int, nanos: int) -> Seq<char>;

/// Relies on `chrono_tz::Tz::from_str`, chrono's `TimeZone::from_local_datetime`
/// and `DateTime::timestamp`: for a named IANA zone, the UTC epoch second of a
/// naive local date-time depends on the name and the fields alone. A returned
/// instant lies within chrono's representable range (roughly years
/// -262144..=262142, so within 9e12 seconds of the epoch), far inside the
/// instant model bound.
#[verifier::external_body]
pub(crate) fn local_to_epoch(tz_name: &str, y: u16, mo: u8, d: u8, h: u8, mi: u8, s: u8) -> (r:
    Option<i64>)
    ensures
        r == local_epoch_of(
            tz_name@,
            y as int,
            mo as int,
            d as int,
            h as int,
            mi as int,
            s as int,
        ),
        match r {
            Some(v) => -crate::instant::SECS_BOUND <= v <= crate::instant::SECS_BOUND,
            None => true,
        },
{
    let tz = chrono_tz::Tz::from_str(tz_name).ok()?;
    let nd = chrono::NaiveDate::from_ymd_opt(y as i32, mo as u32, d as u32)?;
    let nt = chrono::NaiveTime::from_hms_opt(h as u32, mi as u32, s as u32)?;
    match tz.from_local_datetime(&nd.and_time(nt)) {
        chrono::LocalResult::Single(dt) => Some(dt.timestamp()),
        _ => None,
    }
}

/// Relies on chrono's `Display` for `DateTime<chrono_tz::Tz>` (via
/// `TimeZone::timestamp_opt`): the rendering depends on the zone name and the
/// instant alone. An unknown zone name, or an instant outside chrono's range,
/// is rendered in a plain seconds-and-nanoseconds form, again a function of
/// the same arguments.
#[verifier::external_body]
pub(crate) fn format_in_zone(tz_name: &str, secs: i64, nanos: u32) -> (r: String)
    ensures
        r@ == zoned_display_of(tz_name@, secs as int, nanos as int),
{
    if let Ok(tz) = chrono_tz::Tz::from_str(tz_name) {
        if let chrono::LocalResult::Single(dt) = tz.timestamp_opt(secs, nanos) {
            return format!("{}", dt);
        }
    }
    format!("{}s+{}ns", secs, nanos)
}

} // verus!
