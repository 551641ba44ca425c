//! The clock, read through `std::time`, and calendar rendering through `chrono`.

use vstd::prelude::*;
use crate::text::{dec_nat, digit};

verus! {

/// `std::time::SystemTime`, carried through without looking inside.
#[verifier::external_type_specification]
#[verifier::external_body]
pub struct ExSystemTime(std::time::SystemTime);

/// The machine's clock, read by `std::time::SystemTime::now`. Nothing is promised of
/// the instant: it is whatever the clock says.
#[verifier::external_body]
fn system_now() -> std::time::SystemTime {
    std::time::SystemTime::now()
}

/// How far `t` lies from the Unix epoch, by `SystemTime::duration_since(UNIX_EPOCH)`,
/// in whole seconds: `Ok` with the distance when `t` is not before the epoch, `Err`
/// with the distance (taken from the error's `duration`) when it is. Neither call
/// panics. Nothing is stated of the value, since a `SystemTime` shows Verus nothing of
/// the instant it holds.
#[verifier::external_body]
fn secs_from_epoch(t: &std::time::SystemTime) -> Result<u64, u64> {
    match t.duration_since(std::time::UNIX_EPOCH) {
        Ok(d) => Ok(d.as_secs()),
        Err(e) => Err(e.duration().as_secs()),
    }
}

/// The signed distance from the epoch that `offset` describes (`Ok`: at or after it,
/// `Err`: before it), clamped to what an `i64` holds.
pub open spec fn signed_epoch_secs(offset: Result<u64, u64>) -> int {
    match offset {
        Ok(a) => if a <= i64::MAX { a as int } else { i64::MAX as int },
        Err(b) => if b <= i64::MAX { -(b as int) } else { -(i64::MAX as int) },
    }
}

/// Turns a distance from the epoch into signed seconds, negative before the epoch.
pub fn epoch_secs(offset: Result<u64, u64>) -> (r: i64)
    ensures
        r as int == signed_epoch_secs(offset),
{
    let max: u64 = 0x7fff_ffff_ffff_ffff;
    match offset {
        Ok(a) => if a <= max { a as i64 } else { i64::MAX },
        Err(b) => if b <= max { -(b as i64) } else { -i64::MAX },
    }
}

/// The current time in whole seconds since the Unix epoch, negative for a clock set
/// before it. It never panics; what it returns is whatever the machine's clock says.
pub fn utc_now_secs() -> (r: i64)
    ensures
        -i64::MAX <= r,
{
    let now = system_now();
    epoch_secs(secs_from_epoch(&now))
}

/// Whether `y` is a leap year of the proleptic Gregorian calendar.
pub open spec fn is_leap_year(y: int) -> bool {
    (y % 4 == 0 && y % 100 != 0) || y % 400 == 0
}

/// The number of days of month `m` (1 to 12) of year `y`.
pub open spec fn days_in_month(y: int, m: int) -> int {
    if m == 2 {
        if is_leap_year(y) { 29 } else { 28 }
    } else if m == 4 || m == 6 || m == 9 || m == 11 {
        30
    } else {
        31
    }
}

/// The leap years from year 1 up to year `n`; for any `a <= b`, the difference of
/// the counts at `b` and at `a` is the number of leap years after `a` up to `b`.
pub open spec fn leaps_through(n: int) -> int {
    n / 4 - n / 100 + n / 400
}

/// The days of the months of year `y` before month `m`.
pub open spec fn days_before_month(y: int, m: int) -> int
    decreases m,
{
    if m <= 1 { 0 } else { days_before_month(y, m - 1) + days_in_month(y, m - 1) }
}

/// The number of the day `y-m-d`, counted from 1970-01-01 (day 0).
pub open spec fn day_number(y: int, m: int, d: int) -> int {
    365 * (y - 1970) + (leaps_through(y - 1) - leaps_through(1969)) + days_before_month(y, m) + d - 1
}

/// The calendar date (year, month, day) of day number `z`.
pub open spec fn civil_date(z: int) -> (int, int, int) {
    choose|c: (int, int, int)| 1 <= c.1 <= 12 && 1 <= c.2 <= days_in_month(c.0, c.1) && day_number(c.0, c.1, c.2) == z
}

/// The years `chrono` has dates for.
pub open spec fn in_date_range(y: int) -> bool {
    -262143 <= y <= 262142
}

/// `s` padded with leading zeros to `n` characters.
pub open spec fn zero_pad(s: Seq<char>, n: nat) -> Seq<char> {
    if s.len() < n { Seq::new((n - s.len()) as nat, |i: int| '0') + s } else { s }
}

/// A year as `%Y` writes it: four digits for 0 to 9999, otherwise a sign and at least
/// four digits.
pub open spec fn year_text(y: int) -> Seq<char> {
    if 0 <= y <= 9999 {
        zero_pad(dec_nat(y as nat), 4)
    } else if y > 9999 {
        seq!['+'] + dec_nat(y as nat)
    } else {
        seq!['-'] + zero_pad(dec_nat((-y) as nat), 4)
    }
}

/// Two digits, as `%m`, `%d`, `%H`, `%M` and `%S` write a number below 100.
pub open spec fn two_digits(n: int) -> Seq<char> {
    seq![digit((n / 10) as nat), digit((n % 10) as nat)]
}

/// The English abbreviation of month `m` (1 to 12), as `%b` writes it.
pub open spec fn month_abbrev(m: int) -> Seq<char> {
    seq!["Jan"@, "Feb"@, "Mar"@, "Apr"@, "May"@, "Jun"@, "Jul"@, "Aug"@, "Sep"@, "Oct"@, "Nov"@, "Dec"@][m - 1]
}

/// The UTC instant `secs` with pattern `%b %Y` (abbreviated month, a space, the
/// year), or `None` where its year lies outside `chrono`'s dates.
pub open spec fn month_year_text(secs: i64) -> Option<Seq<char>> {
    let c = civil_date((secs as int) / 86400);
    if in_date_range(c.0) { Some(month_abbrev(c.1) + seq![' '] + year_text(c.0)) } else { None }
}

/// The UTC instant `secs` with pattern `%Y-%m-%d %H:%M:%S UTC`, or `None` where its
/// year lies outside `chrono`'s dates.
pub open spec fn utc_datetime_text(secs: i64) -> Option<Seq<char>> {
    let c = civil_date((secs as int) / 86400);
    let t: int = (secs as int) % 86400;
    if in_date_range(c.0) {
        Some(year_text(c.0) + seq!['-'] + two_digits(c.1) + seq!['-'] + two_digits(c.2) + seq![' '] + two_digits(t / 3600)
            + seq![':'] + two_digits((t % 3600) / 60) + seq![':'] + two_digits(t % 60) + " UTC"@)
    } else {
        None
    }
}

/// Renders `secs` as `Mon YYYY` through `chrono::DateTime::from_timestamp` and
/// `format("%b %Y")`: `from_timestamp` splits `secs` into whole days (rounded down)
/// and seconds of the day and has an instant exactly where the day's year lies in
/// chrono's range, and the format writes the month abbreviation and the year as
/// [`month_year_text`] states.
#[verifier::external_body]
pub(crate) fn month_year(secs: i64) -> (r: Option<String>)
    ensures
        r.deep_view() == month_year_text(secs),
{
    match chrono::DateTime::from_timestamp(secs, 0) {
        Some(dt) => Some(dt.format("%b %Y").to_string()),
        None => None,
    }
}

/// Renders `secs` as `YYYY-MM-DD HH:MM:SS UTC` through
/// `chrono::DateTime::from_timestamp` and `format("%Y-%m-%d %H:%M:%S UTC")`, as
/// [`utc_datetime_text`] states.
#[verifier::external_body]
pub(crate) fn utc_datetime(secs: i64) -> (r: Option<String>)
    ensures
        r.deep_view() == utc_datetime_text(secs),
{
    match chrono::DateTime::from_timestamp(secs, 0) {
        Some(dt) => Some(dt.format("%Y-%m-%d %H:%M:%S UTC").to_string()),
        None => None,
    }
}

} // verus!
