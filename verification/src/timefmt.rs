//! Dates as text: the modification time in UTC (through `chrono`) and the creation time
//! to the minute in the local offset (through `time`).
use vstd::prelude::*;
use chrono::TimeZone;
use crate::text::{decimal, digit_char};

verus! {

/// The (year, month, day) of the day `z` days after 1 January 1970 in the proleptic
/// Gregorian calendar (division rounds down).
pub open spec fn civil_from_days(z: int) -> (int, int, int) {
    let zz = z + 719468;
    let era = zz / 146097;
    let doe = zz - era * 146097;
    let yoe = (doe - doe / 1460 + doe / 36524 - doe / 146096) / 365;
    let doy = doe - (365 * yoe + yoe / 4 - yoe / 100);
    let mp = (5 * doy + 2) / 153;
    let d = doy - (153 * mp + 2) / 5 + 1;
    let m = if mp < 10 { mp + 3 } else { mp - 9 };
    let y = yoe + era * 400;
    (if m <= 2 { y + 1 } else { y }, m, d)
}

/// The decimal digits of `n`, with zeros in front up to `w` digits.
pub open spec fn padded(n: nat, w: nat) -> Seq<char> {
    let t = decimal(n);
    if t.len() >= w {
        t
    } else {
        Seq::new((w - t.len()) as nat, |i: int| '0') + t
    }
}

/// Two digits of `n` (0..=99).
pub open spec fn two_digits(n: int) -> Seq<char> {
    seq![digit_char((n / 10) as nat), digit_char((n % 10) as nat)]
}

/// A year as `chrono` writes it: four digits for 0 to 9999, otherwise a sign and at
/// least four digits.
pub open spec fn chrono_year_text(y: int) -> Seq<char> {
    if 0 <= y <= 9999 {
        padded(y as nat, 4)
    } else if y > 9999 {
        seq!['+'] + padded(y as nat, 4)
    } else {
        seq!['-'] + padded((-y) as nat, 4)
    }
}

/// The earliest second `chrono` represents as a UTC date-time (1 January of year -262143).
pub open spec fn chrono_min_secs() -> int {
    -8334601228800
}

/// The last second `chrono` represents as a UTC date-time (31 December of year 262142).
pub open spec fn chrono_max_secs() -> int {
    8210266876799
}

/// The `Display` text of the UTC date-time `secs` seconds after the Unix epoch, as
/// `chrono` writes it: `YYYY-MM-DD hh:mm:ss UTC` (see `chrono_year_text` for the year).
pub open spec fn utc_datetime_text(secs: int) -> Seq<char> {
    let (y, mo, d) = civil_from_days(secs / 86400);
    let t = secs % 86400;
    chrono_year_text(y) + seq!['-'] + two_digits(mo) + seq!['-'] + two_digits(d) + seq![' '] + two_digits(t / 3600)
        + seq![':'] + two_digits((t % 3600) / 60) + seq![':'] + two_digits(t % 60) + seq![' ', 'U', 'T', 'C']
}

/// Calls `Utc.timestamp_opt(secs, 0)` and writes the date-time with `Display`. As
/// `DateTime::from_timestamp` shows, there is a date-time exactly for the seconds from
/// 1 January -262143 to 31 December 262142.
#[verifier::external_body]
fn chrono_utc_text(secs: i64) -> (r: Option<String>)
    ensures
        r is Some <==> chrono_min_secs() <= secs <= chrono_max_secs(),
        r matches Some(s) ==> s@ == utc_datetime_text(secs as int),
{
    match chrono::Utc.timestamp_opt(secs, 0) {
        chrono::offset::LocalResult::Single(dt) => Some(format!("{}", dt)),
        chrono::offset::LocalResult::Ambiguous(_, _) => None,
        chrono::offset::LocalResult::None => None,
    }
}

/// The signed value of `date` read as a 64-bit two's complement integer (`date as i64`).
pub open spec fn as_signed(date: u64) -> int {
    if date <= 0x7fff_ffff_ffff_ffff {
        date as int
    } else {
        date - 0x1_0000_0000_0000_0000
    }
}

/// Whether `chrono` can write the modification time `date`.
pub open spec fn writable_utc(date: u64) -> bool {
    chrono_min_secs() <= as_signed(date) <= chrono_max_secs()
}

/// The modification time `date` (seconds since the Unix epoch, read as a signed
/// 64-bit value) as a UTC date-time in `chrono`'s `Display` form.
pub fn format_modified_time(date: u64) -> (r: String)
    requires
        writable_utc(date),
    ensures
        r@ == utc_datetime_text(as_signed(date)),
{
    let secs: i64 = if date <= 0x7fff_ffff_ffff_ffff {
        date as i64
    } else {
        let below: u64 = 0xffff_ffff_ffff_ffff - date;
        -(below as i64) - 1
    };
    match chrono_utc_text(secs) {
        Some(s) => s,
        None => String::new(),
    }
}

/// The largest offset from UTC, in seconds, that `time` represents (25:59:59).
pub open spec fn max_offset_secs() -> int {
    93599
}

/// The last second of year 9999, the latest time `time` represents.
pub open spec fn time_max_secs() -> int {
    253402300799
}

/// The text `[year]-[month]-[day] [hour]:[minute]` that `time` writes for the instant
/// `secs` seconds after the Unix epoch, seen at an offset of `offset` seconds from UTC:
/// `YYYY-MM-DD hh:mm` of the local date-time, for the years 0 to 9999 that occur here.
pub open spec fn minute_stamp_text(secs: int, offset: int) -> Seq<char> {
    let local = secs + offset;
    let (y, mo, d) = civil_from_days(local / 86400);
    let t = local % 86400;
    padded(y as nat, 4) + seq!['-'] + two_digits(mo) + seq!['-'] + two_digits(d) + seq![' '] + two_digits(t / 3600)
        + seq![':'] + two_digits((t % 3600) / 60)
}

/// Calls `UtcOffset::current_local_offset` and gives the offset in whole seconds; none
/// where it cannot be determined. An offset lies within ±25:59:59.
#[verifier::external_body]
pub(crate) fn local_offset_seconds() -> (r: Option<i32>)
    ensures
        r matches Some(s) ==> -max_offset_secs() <= s <= max_offset_secs(),
{
    time::UtcOffset::current_local_offset().ok().map(|o| o.whole_seconds())
}

/// Builds the `OffsetDateTime` of `secs` seconds after the Unix epoch (through
/// `SystemTime`), moves it to the offset of `offset` seconds with `to_offset`, and
/// writes it with the format description `[year]-[month]-[day] [hour]:[minute]`.
#[verifier::external_body]
fn minute_stamp(secs: u64, offset: i32) -> (r: String)
    requires
        secs <= time_max_secs(),
        -max_offset_secs() <= offset <= max_offset_secs(),
        secs + offset <= time_max_secs(),
    ensures
        r@ == minute_stamp_text(secs as int, offset as int),
{
    let instant = std::time::UNIX_EPOCH + std::time::Duration::from_secs(secs);
    let at = time::OffsetDateTime::from(instant);
    let shift = match time::UtcOffset::from_whole_seconds(offset) {
        Ok(o) => o,
        Err(_) => time::UtcOffset::UTC,
    };
    match time::format_description::parse_borrowed::<1>("[year]-[month]-[day] [hour]:[minute]") {
        Ok(fmt) => at.to_offset(shift).format(&fmt).unwrap_or_default(),
        Err(_) => String::new(),
    }
}

/// Whether an offset read for the local time zone lies in the range `time` represents.
pub open spec fn offset_in_range(offset: Option<i32>) -> bool {
    offset matches Some(o) ==> -max_offset_secs() <= o <= max_offset_secs()
}

/// The offset used for a creation stamp: the local offset where it is known, else 0 (UTC).
pub open spec fn offset_or_utc(offset: Option<i32>) -> int {
    match offset {
        Some(o) => o as int,
        None => 0,
    }
}

/// Whether the creation time `created` can be written at the offset `offset`.
pub open spec fn stampable(created: u64, offset: Option<i32>) -> bool {
    &&& offset_in_range(offset)
    &&& created <= time_max_secs()
    &&& created + offset_or_utc(offset) <= time_max_secs()
}

/// The creation time `created` to the minute, at the local offset `offset` read for
/// this machine, and in UTC where it could not be determined (`None`).
pub fn stamp_at(created: u64, offset: Option<i32>) -> (r: String)
    requires
        stampable(created, offset),
    ensures
        r@ == minute_stamp_text(created as int, offset_or_utc(offset)),
{
    let o: i32 = match offset {
        Some(o) => o,
        None => 0,
    };
    minute_stamp(created, o)
}

/// The latest creation time that can be written for any local offset.
pub open spec fn stamp_max_secs() -> int {
    time_max_secs() - max_offset_secs()
}

/// The creation time `created` to the minute, at the local offset from UTC where it can
/// be determined and in UTC otherwise: the local offset is read and handed to
/// `stamp_at`.
pub fn created_stamp(created: u64) -> (r: String)
    requires
        created <= stamp_max_secs(),
    ensures
        exists|o: Option<i32>| offset_in_range(o) && r@ == minute_stamp_text(created as int, offset_or_utc(o)),
{
    let offset = local_offset_seconds();
    let r = stamp_at(created, offset);
    assert(offset_in_range(offset) && r@ == minute_stamp_text(created as int, offset_or_utc(offset)));
    r
}

} // verus!
