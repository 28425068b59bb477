use vstd::prelude::*;

use crate::text::{pad2, pad2_string, year_string, year_text};

use chrono::{Datelike, Timelike};

verus! {

/// A calendar date: year, month (1..=12) and day of the month.
#[derive(Clone, Copy, PartialEq, Eq, Debug)]
pub struct LocalDate {
    pub year: i32,
    pub month: u32,
    pub day: u32,
}

/// A calendar date with a time of day, in no particular zone.
#[derive(Clone, Copy, PartialEq, Eq, Debug)]
pub struct LocalDateTime {
    pub date: LocalDate,
    pub hour: u32,
    pub minute: u32,
    pub second: u32,
    /// Nanoseconds; 1_000_000_000 and above mark a leap second.
    pub nano: u32,
}

/// An hour and a minute, as a user types them.
#[derive(Clone, Copy, PartialEq, Eq, Debug)]
pub struct TimeOfDay {
    pub hour: u32,
    pub minute: u32,
}

/// A moment: whole seconds since 1970-01-01 00:00 UTC and the nanoseconds after them.
#[derive(Clone, Copy, PartialEq, Eq, Debug)]
pub struct Instant {
    pub secs: i64,
    pub nanos: u32,
}

impl LocalDate {
    /// Month and day lie in their calendar ranges.
    pub open spec fn wf(self) -> bool {
        1 <= self.month <= 12 && 1 <= self.day <= 31
    }

    /// Calendar order: by year, then month, then day.
    pub open spec fn before(self, other: LocalDate) -> bool {
        ||| self.year < other.year
        ||| self.year == other.year && self.month < other.month
        ||| self.year == other.year && self.month == other.month && self.day < other.day
    }
}

impl LocalDateTime {
    /// Every field lies in its range.
    pub open spec fn wf(self) -> bool {
        &&& self.date.wf()
        &&& self.hour < 24
        &&& self.minute < 60
        &&& self.second < 60
        &&& self.nano < 2_000_000_000
    }

    /// Chronological order of two readings of the same clock.
    pub open spec fn before(self, other: LocalDateTime) -> bool {
        ||| self.date.before(other.date)
        ||| self.date == other.date && self.hour < other.hour
        ||| self.date == other.date && self.hour == other.hour && self.minute < other.minute
        ||| self.date == other.date && self.hour == other.hour && self.minute == other.minute
            && self.second < other.second
        ||| self.date == other.date && self.hour == other.hour && self.minute == other.minute
            && self.second == other.second && self.nano < other.nano
    }
}

impl TimeOfDay {
    pub open spec fn wf(self) -> bool {
        self.hour < 24 && self.minute < 60
    }

    /// This minute, with no seconds, on the given date.
    pub open spec fn on(self, date: LocalDate) -> LocalDateTime {
        LocalDateTime { date, hour: self.hour, minute: self.minute, second: 0, nano: 0 }
    }
}

/// Whether `a` comes before `b` (the order of `LocalDate::before`).
pub fn date_before(a: &LocalDate, b: &LocalDate) -> (res: bool)
    ensures
        res == a.before(*b),
{
    a.year < b.year || (a.year == b.year && a.month < b.month) || (a.year == b.year && a.month
        == b.month && a.day < b.day)
}

/// Whether two dates are the same day.
pub fn same_date(a: &LocalDate, b: &LocalDate) -> (res: bool)
    ensures
        res == (*a == *b),
{
    a.year == b.year && a.month == b.month && a.day == b.day
}

/// Whether `a` comes before `b` (the order of `LocalDateTime::before`).
pub fn date_time_before(a: &LocalDateTime, b: &LocalDateTime) -> (res: bool)
    ensures
        res == a.before(*b),
{
    if date_before(&a.date, &b.date) {
        return true;
    }
    if !same_date(&a.date, &b.date) {
        return false;
    }
    a.hour < b.hour || (a.hour == b.hour && a.minute < b.minute) || (a.hour == b.hour && a.minute
        == b.minute && a.second < b.second) || (a.hour == b.hour && a.minute == b.minute
        && a.second == b.second && a.nano < b.nano)
}

/// Whether a year is a leap year of the proleptic Gregorian calendar.
pub open spec fn is_leap_year(year: int) -> bool {
    year % 4 == 0 && (year % 100 != 0 || year % 400 == 0)
}

/// The number of days in a month of a year.
pub open spec fn days_in_month(year: int, month: int) -> int {
    if month == 2 {
        if is_leap_year(year) { 29 } else { 28 }
    } else if month == 4 || month == 6 || month == 9 || month == 11 {
        30
    } else {
        31
    }
}

/// A day that the Gregorian calendar has.
pub open spec fn is_calendar_date(d: LocalDate) -> bool {
    1 <= d.month <= 12 && 1 <= d.day <= days_in_month(d.year as int, d.month as int)
}

/// The first and last second that chrono can read on every wall clock: a day inside the range
/// of `chrono::DateTime<Utc>` at either end, since no zone is a day or more away from UTC.
pub open spec fn readable_in_every_zone(at: Instant) -> bool {
    -8_334_601_142_400 <= at.secs <= 8_210_266_790_399
}

/// A moment that chrono reads in UTC and on the wall clock of every zone.
pub open spec fn usable_instant(at: Instant) -> bool {
    utc_calendar(at.secs as int, at.nanos as int) is Some && readable_in_every_zone(at)
}

/// Whether a moment lies where chrono can read it on every wall clock.
pub fn readable_everywhere(at: Instant) -> (res: bool)
    ensures
        res == readable_in_every_zone(at),
{
    -8_334_601_142_400 <= at.secs && at.secs <= 8_210_266_790_399
}

/// Whether chrono reads a moment in UTC and on the wall clock of every zone.
pub fn usable_everywhere(at: Instant) -> (res: bool)
    ensures
        res == usable_instant(at),
{
    proof {
        reveal(utc_calendar);
    }
    if !readable_everywhere(at) || at.nanos >= 2_000_000_000 {
        return false;
    }
    if at.nanos < 1_000_000_000 {
        return true;
    }
    // A leap second stands only in the last second of a minute; counting from chrono's first
    // moment, a whole number of days back, keeps the seconds of the minute unchanged.
    let shifted: i64 = at.secs + 8_334_601_228_800;
    proof {
        let s = at.secs as int;
        vstd::arithmetic::div_mod::lemma_mod_mod(s, 60, 1440);
        vstd::arithmetic::div_mod::lemma_mod_multiples_vanish(138_910_020_480, s, 60);
        assert(60 * 1440 == 86400);
        assert(60 * 138_910_020_480int + s == shifted);
    }
    shifted % 60 == 59
}

/// A date that reading its own `%d.%m.%Y` text gives back, when its year has four digits.
pub open spec fn reads_back(d: LocalDate) -> bool {
    0 <= d.year <= 9999 ==> parsed_date(dmy_text(d)) == Some(d)
}

/// A date as `%d.%m.%Y` prints it.
pub open spec fn dmy_text(d: LocalDate) -> Seq<char> {
    pad2(d.day as nat) + seq!['.'] + pad2(d.month as nat) + seq!['.'] + year_text(d.year as int)
}

/// A moment as `%Y-%m-%d %H:%M:00` prints it.
pub open spec fn storage_text(t: LocalDateTime) -> Seq<char> {
    year_text(t.date.year as int) + seq!['-'] + pad2(t.date.month as nat) + seq!['-'] + pad2(
        t.date.day as nat,
    ) + seq![' '] + pad2(t.hour as nat) + seq![':'] + pad2(t.minute as nat) + seq![':', '0', '0']
}

/// Formats a date as day.month.year, the form the dialogue shows and reads back.
pub fn format_dmy(d: &LocalDate) -> (res: String)
    ensures
        res@ == dmy_text(*d),
{
    proof {
        reveal_strlit(".");
    }
    let day = pad2_string(d.day as u64);
    let month = pad2_string(d.month as u64);
    let year = year_string(d.year);
    day.concat(".").concat(month.as_str()).concat(".").concat(year.as_str())
}

/// Formats a UTC moment the way the reminder tables store it.
pub fn format_storage(t: &LocalDateTime) -> (res: String)
    ensures
        res@ == storage_text(*t),
{
    proof {
        reveal_strlit("-");
        reveal_strlit(" ");
        reveal_strlit(":");
        reveal_strlit(":00");
    }
    let year = year_string(t.date.year);
    let month = pad2_string(t.date.month as u64);
    let day = pad2_string(t.date.day as u64);
    let hour = pad2_string(t.hour as u64);
    let minute = pad2_string(t.minute as u64);
    year.concat("-").concat(month.as_str()).concat("-").concat(day.as_str()).concat(" ").concat(
        hour.as_str(),
    ).concat(":").concat(minute.as_str()).concat(":00")
}

// ---------------------------------------------------------------------------------------------
// chrono and chrono-tz
// ---------------------------------------------------------------------------------------------

/// `chrono_tz::Tz`, a zone of the tz database, carried without looking inside.
#[verifier::external_type_specification]
#[verifier::external_body]
pub struct ExTz(chrono_tz::Tz);

/// Whether `chrono_tz::Tz::from_str` knows the zone name.
pub uninterp spec fn known_zone(name: Seq<char>) -> bool;

/// The proleptic Gregorian date `days` days after 1970-01-01 (before it, when negative).
pub open spec fn date_of_day(days: int) -> LocalDate {
    let z = days + 719468;
    let era = z / 146097;
    let doe = z - era * 146097;
    let yoe = (doe - doe / 1460 + doe / 36524 - doe / 146096) / 365;
    let doy = doe - (365 * yoe + yoe / 4 - yoe / 100);
    let mp = (5 * doy + 2) / 153;
    let day = doy - (153 * mp + 2) / 5 + 1;
    let month = if mp < 10 { mp + 3 } else { mp - 9 };
    let year = yoe + era * 400 + if month <= 2 { 1int } else { 0int };
    LocalDate { year: year as i32, month: month as u32, day: day as u32 }
}

/// The calendar reading in UTC of a moment given as seconds and nanoseconds since the epoch, as
/// `chrono::DateTime::from_timestamp` makes it: none before -262143-01-01 00:00:00 or after
/// 262142-12-31 23:59:59, nor for two billion nanoseconds or more, nor for a leap second
/// (a billion nanoseconds or more) anywhere but in the last second of a minute.
#[verifier::opaque]
pub open spec fn utc_calendar(secs: int, nanos: int) -> Option<LocalDateTime> {
    let second_of_day = secs % 86400;
    if secs < -8_334_601_228_800 || secs > 8_210_266_876_799 || nanos >= 2_000_000_000 || (nanos
        >= 1_000_000_000 && second_of_day % 60 != 59) {
        None
    } else {
        Some(
            LocalDateTime {
                date: date_of_day(secs / 86400),
                hour: (second_of_day / 3600) as u32,
                minute: (second_of_day % 3600 / 60) as u32,
                second: (second_of_day % 60) as u32,
                nano: nanos as u32,
            },
        )
    }
}

/// The wall-clock reading in zone `zone` of a moment (`chrono::DateTime::with_timezone`).
pub uninterp spec fn zone_local_time(zone: Seq<char>, secs: int, nanos: int) -> LocalDateTime;

/// The moment `days` calendar days after a moment, read on the wall clock of `zone`
/// (`chrono::DateTime::checked_add_days`), when that wall-clock time exists exactly once.
pub uninterp spec fn zone_add_days(zone: Seq<char>, secs: int, nanos: int, days: int) -> Option<LocalDate>;

/// The UTC reading of a wall-clock time in `zone`, when that wall-clock time occurs exactly once
/// there (`chrono::NaiveDateTime::and_local_timezone` followed by `single`).
pub uninterp spec fn zone_local_to_utc(zone: Seq<char>, local: LocalDateTime) -> Option<LocalDateTime>;

/// What `chrono::NaiveDate::parse_from_str(text, "%d.%m.%Y")` reads.
pub uninterp spec fn parsed_date(text: Seq<char>) -> Option<LocalDate>;

/// What `chrono::NaiveTime::parse_from_str(text, "%H:%M")` reads.
pub uninterp spec fn parsed_time(text: Seq<char>) -> Option<TimeOfDay>;

/// What `chrono::NaiveDateTime::parse_from_str(text, "%d.%m.%Y %H:%M")` reads.
pub uninterp spec fn parsed_date_time(text: Seq<char>) -> Option<LocalDateTime>;

/// A time zone of the tz database, together with the name it was looked up by.
pub struct Zone {
    name: String,
    tz: chrono_tz::Tz,
}

impl View for Zone {
    type V = Seq<char>;

    closed spec fn view(&self) -> Seq<char> {
        self.name@
    }
}

impl Zone {
    /// Looks a zone up by its tz database name with `chrono_tz::Tz::from_str`. The contract
    /// claims that the lookup succeeds exactly on the names `known_zone` holds of, and that the
    /// zone keeps the name it was found by.
    #[verifier::external_body]
    pub(crate) fn parse(name: &str) -> (res: Option<Zone>)
        ensures
            res is Some <==> known_zone(name@),
            res matches Some(z) ==> z@ == name@,
    {
        match name.parse::<chrono_tz::Tz>() {
            Ok(tz) => Some(Zone { name: name.to_string(), tz }),
            Err(_) => None,
        }
    }

    /// The wall-clock reading of a moment in this zone, by `chrono::DateTime::with_timezone` and
    /// `naive_local`. `naive_local` panics when the zone's offset carries the reading out of
    /// chrono's range, so the moment must lie a day inside it. The contract claims the reading
    /// is `zone_local_time` of the zone's name and the moment, that its fields lie in the ranges
    /// chrono documents for them and its date is a calendar date, and that
    /// `NaiveDate::parse_from_str` with `%d.%m.%Y` reads that date back from the text `format`
    /// prints for it, for four-digit years.
    #[verifier::external_body]
    pub(crate) fn local_at(&self, at: Instant) -> (res: LocalDateTime)
        requires
            usable_instant(at),
        ensures
            res == zone_local_time(self@, at.secs as int, at.nanos as int),
            res.wf(),
            is_calendar_date(res.date),
            reads_back(res.date),
    {
        let utc = chrono::DateTime::from_timestamp(at.secs, at.nanos).unwrap();
        let t = utc.with_timezone(&self.tz).naive_local();
        let date = LocalDate { year: t.year(), month: t.month(), day: t.day() };
        LocalDateTime { date, hour: t.hour(), minute: t.minute(), second: t.second(), nano: t.nanosecond() }
    }

    /// The wall-clock date `days` days after a moment in this zone, by
    /// `chrono::DateTime::checked_add_days` and `date_naive`. `date_naive` panics where
    /// `naive_local` does, so the moment must lie a day inside chrono's range. The contract
    /// claims the result is `zone_add_days` of the zone's name, the moment and the count; that
    /// no days give the moment itself back, so its wall-clock date (`checked_add_days` returns
    /// `self` for `Days(0)`); that a date it gives is a calendar date in range; and that
    /// `NaiveDate::parse_from_str` with `%d.%m.%Y` reads such a date back from its own text,
    /// for four-digit years.
    #[verifier::external_body]
    pub(crate) fn add_days_at(&self, at: Instant, days: u64) -> (res: Option<LocalDate>)
        requires
            usable_instant(at),
        ensures
            res == zone_add_days(self@, at.secs as int, at.nanos as int, days as int),
            days == 0 ==> res == Some(zone_local_time(self@, at.secs as int, at.nanos as int).date),
            res matches Some(d) ==> d.wf() && is_calendar_date(d) && reads_back(d),
    {
        let utc = chrono::DateTime::from_timestamp(at.secs, at.nanos).unwrap();
        match utc.with_timezone(&self.tz).checked_add_days(chrono::Days::new(days)) {
            Some(later) => {
                let d = later.date_naive();
                Some(LocalDate { year: d.year(), month: d.month(), day: d.day() })
            },
            None => None,
        }
    }

    /// The UTC reading of a wall-clock time in this zone, by
    /// `chrono::NaiveDateTime::and_local_timezone` and `single`: none when the time is skipped
    /// or repeated by a clock change, or is not a calendar time at all. The contract claims the
    /// result is `zone_local_to_utc` of the zone's name and the time, with fields in range.
    #[verifier::external_body]
    pub(crate) fn to_utc(&self, local: LocalDateTime) -> (res: Option<LocalDateTime>)
        ensures
            res == zone_local_to_utc(self@, local),
            res matches Some(t) ==> t.wf(),
    {
        let d = chrono::NaiveDate::from_ymd_opt(local.date.year, local.date.month, local.date.day)?;
        let n = d.and_hms_nano_opt(local.hour, local.minute, local.second, local.nano)?;
        let t = n.and_local_timezone(self.tz).single()?.naive_utc();
        let date = LocalDate { year: t.year(), month: t.month(), day: t.day() };
        Some(LocalDateTime { date, hour: t.hour(), minute: t.minute(), second: t.second(), nano: t.nanosecond() })
    }
}

/// The UTC calendar reading of a moment, by `chrono::DateTime::from_timestamp`. The contract
/// claims the reading is `utc_calendar` of the moment, with fields in range.
#[verifier::external_body]
pub(crate) fn utc_at(at: Instant) -> (res: LocalDateTime)
    requires
        utc_calendar(at.secs as int, at.nanos as int) is Some,
    ensures
        utc_calendar(at.secs as int, at.nanos as int) == Some(res),
        res.wf(),
{
    let t = chrono::DateTime::from_timestamp(at.secs, at.nanos).unwrap().naive_utc();
    let date = LocalDate { year: t.year(), month: t.month(), day: t.day() };
    LocalDateTime { date, hour: t.hour(), minute: t.minute(), second: t.second(), nano: t.nanosecond() }
}

/// Reads a date typed as day.month.year with `chrono::NaiveDate::parse_from_str` and the
/// format `%d.%m.%Y`. The contract claims the result is `parsed_date` of the text; that a date
/// it gives is a calendar date; and that the text `%d.%m.%Y` prints for a calendar date with a
/// four-digit year reads back as that date.
#[verifier::external_body]
pub(crate) fn parse_date(text: &str) -> (res: Option<LocalDate>)
    ensures
        res == parsed_date(text@),
        res matches Some(d) ==> d.wf() && is_calendar_date(d),
        forall|d: LocalDate|
            is_calendar_date(d) && 0 <= d.year <= 9999 && #[trigger] dmy_text(d) == text@ ==> res
                == Some(d),
{
    match chrono::NaiveDate::parse_from_str(text, "%d.%m.%Y") {
        Ok(d) => Some(LocalDate { year: d.year(), month: d.month(), day: d.day() }),
        Err(_) => None,
    }
}

/// Reads a time typed as hour:minute with `chrono::NaiveTime::parse_from_str` and the format
/// `%H:%M`. The contract claims the result is `parsed_time` of the text, in range.
#[verifier::external_body]
pub(crate) fn parse_time(text: &str) -> (res: Option<TimeOfDay>)
    ensures
        res == parsed_time(text@),
        res matches Some(t) ==> t.wf(),
{
    match chrono::NaiveTime::parse_from_str(text, "%H:%M") {
        Ok(t) => Some(TimeOfDay { hour: t.hour(), minute: t.minute() }),
        Err(_) => None,
    }
}

/// Reads a date and time with `chrono::NaiveDateTime::parse_from_str` and the format
/// `%d.%m.%Y %H:%M`. The contract claims the result is `parsed_date_time` of the text, in range.
#[verifier::external_body]
pub(crate) fn parse_date_time(text: &str) -> (res: Option<LocalDateTime>)
    ensures
        res == parsed_date_time(text@),
        res matches Some(t) ==> t.wf(),
{
    match chrono::NaiveDateTime::parse_from_str(text, "%d.%m.%Y %H:%M") {
        Ok(t) => {
            let date = LocalDate { year: t.year(), month: t.month(), day: t.day() };
            Some(LocalDateTime { date, hour: t.hour(), minute: t.minute(), second: t.second(), nano: t.nanosecond() })
        },
        Err(_) => None,
    }
}

}
