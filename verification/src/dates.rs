//! Calendar dates and times as plain values: validity, the wire
//! formats the remote service requires, and the derived day of week.

use vstd::prelude::*;
use crate::json::{digit_char, push_char};

verus! {

/// A civil calendar date. Valid years run from 0 to 9999 so that the
/// four-digit wire format is always exact.
#[derive(Clone, Copy, PartialEq, Eq, Structural, Debug)]
pub struct Date {
    pub year: u16,
    pub month: u8,
    pub day: u8,
}

/// A civil date with a time of day, used for timestamps that the wire
/// carries without a zone.
#[derive(Clone, Copy, PartialEq, Eq, Structural, Debug)]
pub struct DateTime {
    pub date: Date,
    pub hour: u8,
    pub minute: u8,
    pub second: u8,
}

/// A leap year of the Gregorian calendar.
pub open spec fn is_leap_year(y: int) -> bool {
    y % 4 == 0 && (y % 100 != 0 || y % 400 == 0)
}

/// How many days the month `m` of year `y` has.
pub open spec fn days_in_month(y: int, m: int) -> int {
    if m == 2 {
        if is_leap_year(y) { 29 } else { 28 }
    } else if m == 4 || m == 6 || m == 9 || m == 11 {
        30
    } else {
        31
    }
}

impl Date {
    /// A well-formed calendar date.
    pub open spec fn valid(self) -> bool {
        self.year <= 9999 && 1 <= self.month <= 12 && 1 <= self.day
            && self.day as int <= days_in_month(self.year as int, self.month as int)
    }

    /// Whether this date exists in the calendar.
    pub fn is_wf(&self) -> (r: bool)
        ensures
            r == self.valid(),
    {
        self.year <= 9999 && 1 <= self.month && self.month <= 12 && 1 <= self.day
            && self.day as u16 <= days_in_month_exec(self.year, self.month)
    }

    /// Builds a date, checking that it exists in the calendar.
    pub fn new(year: u16, month: u8, day: u8) -> (r: Option<Date>)
        ensures
            (r is Some) == (year <= 9999 && 1 <= month <= 12 && 1 <= day && day as int
                <= days_in_month(year as int, month as int)),
            r matches Some(d) ==> d == (Date { year, month, day }) && d.valid(),
    {
        if year <= 9999 && 1 <= month && month <= 12 && 1 <= day && day as u16 <= days_in_month_exec(
            year,
            month,
        ) {
            Some(Date { year, month, day })
        } else {
            None
        }
    }
}

impl DateTime {
    /// A well-formed date with a well-formed time of day.
    pub open spec fn valid(self) -> bool {
        self.date.valid() && self.hour < 24 && self.minute < 60 && self.second < 60
    }

    /// Whether this timestamp is a valid date with a valid time of day.
    pub fn is_wf(&self) -> (r: bool)
        ensures
            r == self.valid(),
    {
        self.date.is_wf() && self.hour < 24 && self.minute < 60 && self.second < 60
    }

    /// Builds a timestamp, checking date and time of day.
    pub fn new(year: u16, month: u8, day: u8, hour: u8, minute: u8, second: u8) -> (r: Option<
        DateTime,
    >)
        ensures
            (r is Some) == ((Date { year, month, day }).valid() && hour < 24 && minute < 60
                && second < 60),
            r matches Some(t) ==> t == (DateTime {
                date: Date { year, month, day },
                hour,
                minute,
                second,
            }) && t.valid(),
    {
        if hour < 24 && minute < 60 && second < 60 {
            match Date::new(year, month, day) {
                Some(date) => Some(DateTime { date, hour, minute, second }),
                None => None,
            }
        } else {
            None
        }
    }
}

/// How many days the month `m` of year `y` has.
pub fn days_in_month_exec(y: u16, m: u8) -> (r: u16)
    ensures
        r as int == days_in_month(y as int, m as int),
{
    if m == 2 {
        if y % 4 == 0 && (y % 100 != 0 || y % 400 == 0) { 29 } else { 28 }
    } else if m == 4 || m == 6 || m == 9 || m == 11 {
        30
    } else {
        31
    }
}

// ---------- wire formats ----------

/// Two decimal digits, zero padded.
pub open spec fn two_digits(n: int) -> Seq<char> {
    seq![digit_char(n / 10), digit_char(n % 10)]
}

/// Four decimal digits, zero padded.
pub open spec fn four_digits(n: int) -> Seq<char> {
    seq![
        digit_char(n / 1000),
        digit_char((n / 100) % 10),
        digit_char((n / 10) % 10),
        digit_char(n % 10),
    ]
}

/// The `dd/mm/yyyy` form of a date.
pub open spec fn date_dmy(d: Date) -> Seq<char> {
    two_digits(d.day as int) + seq!['/'] + two_digits(d.month as int) + seq!['/'] + four_digits(
        d.year as int,
    )
}

/// The `yyyy-mm-dd` form of a date.
pub open spec fn date_ymd(d: Date) -> Seq<char> {
    four_digits(d.year as int) + seq!['-'] + two_digits(d.month as int) + seq!['-'] + two_digits(
        d.day as int,
    )
}

/// The `HH:MM` form of a time of day.
pub open spec fn time_hm(t: DateTime) -> Seq<char> {
    two_digits(t.hour as int) + seq![':'] + two_digits(t.minute as int)
}

/// The `yyyy-mm-ddTHH:MM:SS` form of a timestamp, without a zone.
pub open spec fn datetime_iso(t: DateTime) -> Seq<char> {
    date_ymd(t.date) + seq!['T'] + two_digits(t.hour as int) + seq![':'] + two_digits(
        t.minute as int,
    ) + seq![':'] + two_digits(t.second as int)
}

fn append_two_digits(out: &mut String, n: u16)
    requires
        n < 100,
    ensures
        final(out)@ == old(out)@ + two_digits(n as int),
{
    push_char(out, crate::json::digit_to_char((n / 10) as u64));
    push_char(out, crate::json::digit_to_char((n % 10) as u64));
    assert(final(out)@ =~= old(out)@ + two_digits(n as int));
}

fn append_four_digits(out: &mut String, n: u16)
    requires
        n < 10000,
    ensures
        final(out)@ == old(out)@ + four_digits(n as int),
{
    push_char(out, crate::json::digit_to_char((n / 1000) as u64));
    push_char(out, crate::json::digit_to_char(((n / 100) % 10) as u64));
    push_char(out, crate::json::digit_to_char(((n / 10) % 10) as u64));
    push_char(out, crate::json::digit_to_char((n % 10) as u64));
    assert(final(out)@ =~= old(out)@ + four_digits(n as int));
}

/// Appends the `dd/mm/yyyy` form of `d`.
pub fn append_date_dmy(out: &mut String, d: &Date)
    requires
        d.valid(),
    ensures
        final(out)@ == old(out)@ + date_dmy(*d),
{
    append_two_digits(out, d.day as u16);
    push_char(out, '/');
    append_two_digits(out, d.month as u16);
    push_char(out, '/');
    append_four_digits(out, d.year);
    assert(final(out)@ =~= old(out)@ + date_dmy(*d));
}

/// Appends the `yyyy-mm-dd` form of `d`.
pub fn append_date_ymd(out: &mut String, d: &Date)
    requires
        d.valid(),
    ensures
        final(out)@ == old(out)@ + date_ymd(*d),
{
    append_four_digits(out, d.year);
    push_char(out, '-');
    append_two_digits(out, d.month as u16);
    push_char(out, '-');
    append_two_digits(out, d.day as u16);
    assert(final(out)@ =~= old(out)@ + date_ymd(*d));
}

/// Appends the `HH:MM` form of `t`.
pub fn append_time_hm(out: &mut String, t: &DateTime)
    requires
        t.valid(),
    ensures
        final(out)@ == old(out)@ + time_hm(*t),
{
    append_two_digits(out, t.hour as u16);
    push_char(out, ':');
    append_two_digits(out, t.minute as u16);
    assert(final(out)@ =~= old(out)@ + time_hm(*t));
}

/// Appends the `yyyy-mm-ddTHH:MM:SS` form of `t`.
pub fn append_datetime_iso(out: &mut String, t: &DateTime)
    requires
        t.valid(),
    ensures
        final(out)@ == old(out)@ + datetime_iso(*t),
{
    append_date_ymd(out, &t.date);
    push_char(out, 'T');
    append_two_digits(out, t.hour as u16);
    push_char(out, ':');
    append_two_digits(out, t.minute as u16);
    push_char(out, ':');
    append_two_digits(out, t.second as u16);
    assert(final(out)@ =~= old(out)@ + datetime_iso(*t));
}

/// Formats a time of day as `HH:MM`.
pub fn format_time(t: &DateTime) -> (r: String)
    requires
        t.valid(),
    ensures
        r@ == time_hm(*t),
{
    let mut out = String::new();
    append_time_hm(&mut out, t);
    proof {
        assert(out@ =~= time_hm(*t));
    }
    out
}

/// Formats a date as `dd/mm/yyyy`; a missing date formats as empty.
pub fn format_date(date: Option<&Date>) -> (r: String)
    requires
        date matches Some(d) ==> d.valid(),
    ensures
        date matches Some(d) ==> r@ == date_dmy(*d),
        date is None ==> r@ == Seq::<char>::empty(),
{
    match date {
        Some(d) => {
            let mut out = String::new();
            append_date_dmy(&mut out, d);
            proof {
                assert(out@ =~= date_dmy(*d));
            }
            out
        },
        None => String::new(),
    }
}

/// Formats a timestamp as `yyyy-mm-ddTHH:MM:SS`; a missing timestamp
/// formats as empty.
pub fn format_datetime(datetime: Option<&DateTime>) -> (r: String)
    requires
        datetime matches Some(t) ==> t.valid(),
    ensures
        datetime matches Some(t) ==> r@ == datetime_iso(*t),
        datetime is None ==> r@ == Seq::<char>::empty(),
{
    match datetime {
        Some(t) => {
            let mut out = String::new();
            append_datetime_iso(&mut out, t);
            proof {
                assert(out@ =~= datetime_iso(*t));
            }
            out
        },
        None => String::new(),
    }
}

/// The Unix epoch date, the default of builders that take a date.
pub open spec fn epoch_date() -> Date {
    Date { year: 1970, month: 1, day: 1 }
}

/// Midnight at the Unix epoch, the default of builders that take a
/// timestamp.
pub open spec fn epoch_datetime() -> DateTime {
    DateTime { date: epoch_date(), hour: 0, minute: 0, second: 0 }
}

/// The Unix epoch date.
pub fn unix_epoch_date() -> (r: Date)
    ensures
        r == epoch_date(),
        r.valid(),
{
    Date { year: 1970, month: 1, day: 1 }
}

/// Midnight at the Unix epoch.
pub fn unix_epoch_datetime() -> (r: DateTime)
    ensures
        r == epoch_datetime(),
        r.valid(),
{
    DateTime { date: unix_epoch_date(), hour: 0, minute: 0, second: 0 }
}

/// What an optional date contributes to the wire: `dd/mm/yyyy` when
/// set, the empty string when unset.
pub open spec fn opt_date_view(o: Option<Date>) -> Seq<char> {
    match o {
        Some(d) => date_dmy(d),
        None => Seq::empty(),
    }
}

/// Formats an optional date as [`format_date`] does, from an owned
/// option.
pub fn format_opt_date(date: &Option<Date>) -> (r: String)
    requires
        date matches Some(d) ==> d.valid(),
    ensures
        r@ == opt_date_view(*date),
{
    match date {
        Some(d) => format_date(Some(d)),
        None => String::new(),
    }
}

// ---------- day of week ----------

/// Days from the epoch 1970-01-01 to the civil date `y-m-d`, negative
/// for earlier dates.
pub open spec fn days_from_civil(y: int, m: int, d: int) -> int {
    let yy = if m <= 2 { y - 1 } else { y };
    let era = yy / 400;
    let yoe = yy - era * 400;
    let mp = if m > 2 { m - 3 } else { m + 9 };
    let doy = (153 * mp + 2) / 5 + d - 1;
    let doe = yoe * 365 + yoe / 4 - yoe / 100 + doy;
    era * 146097 + doe - 719468
}

/// The day of week of a date: 0 for Monday through 6 for Sunday.
pub open spec fn weekday_of(d: Date) -> int {
    (days_from_civil(d.year as int, d.month as int, d.day as int) + 3) % 7
}

/// The three-letter English name of a day of week index.
pub open spec fn weekday_name(i: int) -> Seq<char> {
    if i == 0 { "Mon"@ }
    else if i == 1 { "Tue"@ }
    else if i == 2 { "Wed"@ }
    else if i == 3 { "Thu"@ }
    else if i == 4 { "Fri"@ }
    else if i == 5 { "Sat"@ }
    else { "Sun"@ }
}

/// The calendar repeats every 400 years, which is a whole number of
/// weeks, so the day of week can be computed 400 years later.
proof fn lemma_civil_shift_400(y: int, m: int, d: int)
    ensures
        days_from_civil(y + 400, m, d) == days_from_civil(y, m, d) + 146097,
{
    let yy = if m <= 2 { y - 1 } else { y };
    assert((yy + 400) / 400 == yy / 400 + 1) by {
        vstd::arithmetic::div_mod::lemma_div_plus_one(yy, 400);
    }
}

/// The day of week of a valid date, 0 for Monday through 6 for Sunday.
pub fn weekday_index(d: &Date) -> (r: u8)
    requires
        d.valid(),
    ensures
        r as int == weekday_of(*d),
        r < 7,
{
    let y: u64 = d.year as u64 + 400;
    let m: u64 = d.month as u64;
    let dd: u64 = d.day as u64;
    let yy: u64 = if m <= 2 { y - 1 } else { y };
    let era: u64 = yy / 400;
    let yoe: u64 = yy - era * 400;
    let mp: u64 = if m > 2 { m - 3 } else { m + 9 };
    let doy: u64 = (153 * mp + 2) / 5 + dd - 1;
    let doe: u64 = yoe * 365 + yoe / 4 - yoe / 100 + doy;
    let n: u64 = era * 146097 + doe;
    let r: u64 = (n + 2) % 7;
    proof {
        let dfc = days_from_civil(d.year as int, d.month as int, d.day as int);
        lemma_civil_shift_400(d.year as int, d.month as int, d.day as int);
        assert(n == dfc + 146097 + 719468);
        assert(n + 2 == 7 * 123652 + (dfc + 3));
        vstd::arithmetic::div_mod::lemma_mod_multiples_vanish(123652, dfc + 3, 7);
    }
    r as u8
}

/// The English short weekday name of a date; a missing date gives the
/// empty string.
pub fn get_day_of_week(date: Option<Date>) -> (r: String)
    requires
        date matches Some(d) ==> d.valid(),
    ensures
        date matches Some(d) ==> r@ == weekday_name(weekday_of(d)),
        date is None ==> r@ == Seq::<char>::empty(),
{
    match date {
        Some(d) => {
            let i = weekday_index(&d);
            match i {
                0 => String::from_str("Mon"),
                1 => String::from_str("Tue"),
                2 => String::from_str("Wed"),
                3 => String::from_str("Thu"),
                4 => String::from_str("Fri"),
                5 => String::from_str("Sat"),
                _ => String::from_str("Sun"),
            }
        },
        None => String::new(),
    }
}

// ---------- timestamps from the wire ----------

/// The date and time, in UTC, that an RFC 3339 timestamp denotes:
/// year, month, day, hour, minute, second; `None` where the text is
/// not a well-formed timestamp.
pub uninterp spec fn rfc3339_utc_of(s: Seq<char>) -> Option<(int, int, int, int, int, int)>;

/// Relies on chrono's `DateTime::parse_from_rfc3339` followed by
/// `with_timezone` to UTC: the result depends on the text alone, and a
/// parsed date-time is a valid calendar date with a valid time of day.
#[verifier::external_body]
pub fn parse_rfc3339_utc(s: &str) -> (r: Option<(i32, u8, u8, u8, u8, u8)>)
    ensures
        (r is Some) == (rfc3339_utc_of(s@) is Some),
        r matches Some(t) ==> rfc3339_utc_of(s@) == Some(
            (t.0 as int, t.1 as int, t.2 as int, t.3 as int, t.4 as int, t.5 as int),
        ) && 1 <= t.1 <= 12 && 1 <= t.2 && t.2 as int <= days_in_month(t.0 as int, t.1 as int)
            && t.3 < 24 && t.4 < 60 && t.5 < 60,
{
    match chrono::DateTime::parse_from_rfc3339(s) {
        Ok(dt) => {
            let dt = dt.with_timezone(&chrono::Utc);
            Some((
                chrono::Datelike::year(&dt),
                chrono::Datelike::month(&dt) as u8,
                chrono::Datelike::day(&dt) as u8,
                chrono::Timelike::hour(&dt) as u8,
                chrono::Timelike::minute(&dt) as u8,
                chrono::Timelike::second(&dt) as u8,
            ))
        },
        Err(_) => None,
    }
}

/// The library's view of a parsed RFC 3339 timestamp: `None` where the
/// text is malformed or the UTC year falls outside 0..=9999.
pub open spec fn datetime_of_rfc3339(s: Seq<char>) -> Option<DateTime> {
    match rfc3339_utc_of(s) {
        None => None,
        Some((y, mo, dd, h, mi, sec)) => if 0 <= y <= 9999 {
            Some(
                DateTime {
                    date: Date { year: y as u16, month: mo as u8, day: dd as u8 },
                    hour: h as u8,
                    minute: mi as u8,
                    second: sec as u8,
                },
            )
        } else {
            None
        },
    }
}

/// Parses an RFC 3339 timestamp into a UTC [`DateTime`].
pub fn parse_datetime(s: &str) -> (r: Option<DateTime>)
    ensures
        r == datetime_of_rfc3339(s@),
        r matches Some(t) ==> t.valid(),
{
    match parse_rfc3339_utc(s) {
        None => None,
        Some((y, mo, dd, h, mi, sec)) => {
            if 0 <= y && y <= 9999 {
                Some(
                    DateTime {
                        date: Date { year: y as u16, month: mo, day: dd },
                        hour: h,
                        minute: mi,
                        second: sec,
                    },
                )
            } else {
                None
            }
        },
    }
}

} // verus!
