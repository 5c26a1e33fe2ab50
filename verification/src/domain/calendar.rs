use vstd::prelude::*;

verus! {

/// The earliest year a [`Date`] can fall in.
pub const MIN_YEAR: i32 = -262143;

/// The latest year a [`Date`] can fall in.
pub const MAX_YEAR: i32 = 262142;

/// Leap years of the proleptic Gregorian calendar, year 0 included.
pub open spec fn is_leap_year(year: int) -> bool {
    year % 4 == 0 && (year % 100 != 0 || year % 400 == 0)
}

/// Number of days in a month of a year; 0 where `month` is not 1 to 12.
pub open spec fn days_in_month(year: int, month: int) -> int {
    if month == 2 {
        if is_leap_year(year) {
            29
        } else {
            28
        }
    } else if month == 4 || month == 6 || month == 9 || month == 11 {
        30
    } else if 1 <= month <= 12 {
        31
    } else {
        0
    }
}

/// A day that exists in the calendar, in a year between `MIN_YEAR` and `MAX_YEAR`.
pub open spec fn is_calendar_date(year: int, month: int, day: int) -> bool {
    &&& MIN_YEAR <= year <= MAX_YEAR
    &&& 1 <= month <= 12
    &&& 1 <= day <= days_in_month(year, month)
}

/// A time of day. A nanosecond count of a billion or more stands for a leap
/// second and is admitted only in the last second of a minute.
pub open spec fn is_time_of_day(hour: int, minute: int, second: int, nanosecond: int) -> bool {
    &&& 0 <= hour < 24
    &&& 0 <= minute < 60
    &&& 0 <= second < 60
    &&& 0 <= nanosecond < 2_000_000_000
    &&& (nanosecond >= 1_000_000_000 ==> second == 59)
}

/// A calendar date without a time zone.
#[derive(Debug, Clone, Copy, PartialEq, Eq, Structural)]
pub struct Date {
    year: i32,
    month: u32,
    day: u32,
}

/// A calendar date and a time of day, without a time zone.
#[derive(Debug, Clone, Copy, PartialEq, Eq, Structural)]
pub struct DateTime {
    date: Date,
    hour: u32,
    minute: u32,
    second: u32,
    nanosecond: u32,
}

fn leap_year(year: i32) -> (res: bool)
    requires
        MIN_YEAR <= year <= MAX_YEAR,
    ensures
        res == is_leap_year(year as int),
{
    // 262400 is a multiple of 400, so the shift keeps every remainder below.
    let shifted: u32 = (year + 262400) as u32;
    shifted % 4 == 0 && (shifted % 100 != 0 || shifted % 400 == 0)
}

fn month_length(year: i32, month: u32) -> (res: u32)
    requires
        MIN_YEAR <= year <= MAX_YEAR,
    ensures
        res == days_in_month(year as int, month as int),
{
    if month == 2 {
        if leap_year(year) {
            29
        } else {
            28
        }
    } else if month == 4 || month == 6 || month == 9 || month == 11 {
        30
    } else if 1 <= month && month <= 12 {
        31
    } else {
        0
    }
}

/// The text that chrono gives for a calendar date under a strftime pattern,
/// or `None` where it has no such date or cannot write it under the pattern.
pub uninterp spec fn date_text(year: int, month: int, day: int, format: Seq<char>) -> Option<
    Seq<char>,
>;

/// The text that chrono gives for a date and time of day, read as UTC, under a
/// strftime pattern, or `None` where it has no such moment or cannot write it
/// under the pattern.
pub uninterp spec fn date_time_text(
    year: int,
    month: int,
    day: int,
    hour: int,
    minute: int,
    second: int,
    nanosecond: int,
    format: Seq<char>,
) -> Option<Seq<char>>;

/// Whether a text is short and plain: at most forty characters, all of
/// them ASCII.
pub open spec fn is_short_plain_text(text: Seq<char>) -> bool {
    text.len() <= 40 && vstd::utf8::is_ascii_chars(text)
}

/// Whether a text was written, and a short and plain one.
pub open spec fn is_written_short(written: Option<String>) -> bool {
    written matches Some(text) && is_short_plain_text(text@)
}

/// Calls `chrono::NaiveDate::from_ymd_opt`, `NaiveDate::format` and
/// `DelayedFormat::write_to`. Trusted: the text depends on the date and the
/// pattern alone, so it can carry the name `date_text`; `None` stands for a
/// date that chrono refuses or a pattern that it cannot apply to a date.
/// Trusted of the pattern `%F`: chrono writes every calendar date under it,
/// as a year, a month and a day in digits with hyphens between them.
#[verifier::external_body]
fn chrono_date_text(year: i32, month: u32, day: u32, format: &str) -> (res: Option<String>)
    ensures
        res is Some <==> date_text(year as int, month as int, day as int, format@) is Some,
        res matches Some(text) ==> date_text(year as int, month as int, day as int, format@)
            == Some(text@),
        (is_calendar_date(year as int, month as int, day as int) && format@ == "%F"@)
            ==> is_written_short(res),
{
    let date = chrono::NaiveDate::from_ymd_opt(year, month, day)?;
    let mut text = String::new();
    date.format(format).write_to(&mut text).ok()?;
    Some(text)
}

/// Calls `chrono::NaiveDate::from_ymd_opt`, `NaiveDate::and_hms_nano_opt`,
/// `NaiveDateTime::and_utc`, `DateTime::format` and `DelayedFormat::write_to`.
/// Trusted: the text depends on the moment and the pattern alone, so it can
/// carry the name `date_time_text`; `None` stands for a moment that chrono
/// refuses or a pattern that it cannot apply. Trusted of the pattern `%+`:
/// chrono writes every moment under it, as date, `T`, time of day and the
/// offset of UTC, in digits and punctuation.
#[verifier::external_body]
fn chrono_date_time_text(
    year: i32,
    month: u32,
    day: u32,
    hour: u32,
    minute: u32,
    second: u32,
    nanosecond: u32,
    format: &str,
) -> (res: Option<String>)
    ensures
        res is Some <==> date_time_text(
            year as int,
            month as int,
            day as int,
            hour as int,
            minute as int,
            second as int,
            nanosecond as int,
            format@,
        ) is Some,
        res matches Some(text) ==> date_time_text(
            year as int,
            month as int,
            day as int,
            hour as int,
            minute as int,
            second as int,
            nanosecond as int,
            format@,
        ) == Some(text@),
        (is_calendar_date(year as int, month as int, day as int) && is_time_of_day(
            hour as int,
            minute as int,
            second as int,
            nanosecond as int,
        ) && format@ == "%+"@) ==> is_written_short(res),
{
    let date = chrono::NaiveDate::from_ymd_opt(year, month, day)?;
    let moment = date.and_hms_nano_opt(hour, minute, second, nanosecond)?.and_utc();
    let mut text = String::new();
    moment.format(format).write_to(&mut text).ok()?;
    Some(text)
}

impl Date {
    #[verifier::type_invariant]
    spec fn well_formed(self) -> bool {
        is_calendar_date(self.year as int, self.month as int, self.day as int)
    }

    pub closed spec fn spec_year(&self) -> i32 {
        self.year
    }

    pub closed spec fn spec_month(&self) -> u32 {
        self.month
    }

    pub closed spec fn spec_day(&self) -> u32 {
        self.day
    }

    /// The date of the given year, month and day, where the calendar has it.
    pub fn from_ymd_opt(year: i32, month: u32, day: u32) -> (res: Option<Date>)
        ensures
            res is Some <==> is_calendar_date(year as int, month as int, day as int),
            res matches Some(date) ==> date.spec_year() == year && date.spec_month() == month
                && date.spec_day() == day,
    {
        if year < MIN_YEAR || year > MAX_YEAR {
            return None;
        }
        if month < 1 || month > 12 || day < 1 || day > month_length(year, month) {
            return None;
        }
        Some(Date { year, month, day })
    }

    #[verifier::when_used_as_spec(spec_year)]
    pub fn year(&self) -> (res: i32)
        ensures
            res == self.spec_year(),
            is_calendar_date(res as int, self.spec_month() as int, self.spec_day() as int),
    {
        proof {
            use_type_invariant(self);
        }
        self.year
    }

    #[verifier::when_used_as_spec(spec_month)]
    pub fn month(&self) -> (res: u32)
        ensures
            res == self.spec_month(),
            1 <= res <= 12,
    {
        proof {
            use_type_invariant(self);
        }
        self.month
    }

    #[verifier::when_used_as_spec(spec_day)]
    pub fn day(&self) -> (res: u32)
        ensures
            res == self.spec_day(),
            1 <= res <= 31,
    {
        proof {
            use_type_invariant(self);
        }
        self.day
    }

    /// The text of this date under a strftime pattern.
    pub open spec fn text(&self, format: Seq<char>) -> Option<Seq<char>> {
        date_text(self.spec_year() as int, self.spec_month() as int, self.spec_day() as int, format)
    }

    /// Writes this date under a strftime pattern such as `%F`; `None` where
    /// the pattern cannot be applied to a date. Under `%F` every date is
    /// written, in a short and plain text.
    pub fn format(&self, format: &str) -> (res: Option<String>)
        ensures
            res is Some <==> self.text(format@) is Some,
            res matches Some(text) ==> self.text(format@) == Some(text@),
            format@ == "%F"@ ==> is_written_short(res),
    {
        proof {
            use_type_invariant(self);
        }
        chrono_date_text(self.year, self.month, self.day, format)
    }
}

impl DateTime {
    #[verifier::type_invariant]
    spec fn well_formed(self) -> bool {
        is_time_of_day(
            self.hour as int,
            self.minute as int,
            self.second as int,
            self.nanosecond as int,
        )
    }

    pub closed spec fn spec_date(&self) -> Date {
        self.date
    }

    pub closed spec fn spec_hour(&self) -> u32 {
        self.hour
    }

    pub closed spec fn spec_minute(&self) -> u32 {
        self.minute
    }

    pub closed spec fn spec_second(&self) -> u32 {
        self.second
    }

    pub closed spec fn spec_nanosecond(&self) -> u32 {
        self.nanosecond
    }

    /// The given time of day on `date`, where the clock has it.
    pub fn new(date: Date, hour: u32, minute: u32, second: u32, nanosecond: u32) -> (res: Option<
        DateTime,
    >)
        ensures
            res is Some <==> is_time_of_day(
                hour as int,
                minute as int,
                second as int,
                nanosecond as int,
            ),
            res matches Some(moment) ==> moment.spec_date() == date && moment.spec_hour() == hour
                && moment.spec_minute() == minute && moment.spec_second() == second
                && moment.spec_nanosecond() == nanosecond,
    {
        if hour >= 24 || minute >= 60 || second >= 60 {
            return None;
        }
        if nanosecond >= 2_000_000_000 || (nanosecond >= 1_000_000_000 && second != 59) {
            return None;
        }
        Some(DateTime { date, hour, minute, second, nanosecond })
    }

    #[verifier::when_used_as_spec(spec_date)]
    pub fn date(&self) -> (res: Date)
        ensures
            res == self.spec_date(),
    {
        self.date
    }

    #[verifier::when_used_as_spec(spec_hour)]
    pub fn hour(&self) -> (res: u32)
        ensures
            res == self.spec_hour(),
            res < 24,
    {
        proof {
            use_type_invariant(self);
        }
        self.hour
    }

    #[verifier::when_used_as_spec(spec_minute)]
    pub fn minute(&self) -> (res: u32)
        ensures
            res == self.spec_minute(),
            res < 60,
    {
        proof {
            use_type_invariant(self);
        }
        self.minute
    }

    #[verifier::when_used_as_spec(spec_second)]
    pub fn second(&self) -> (res: u32)
        ensures
            res == self.spec_second(),
            res < 60,
    {
        proof {
            use_type_invariant(self);
        }
        self.second
    }

    #[verifier::when_used_as_spec(spec_nanosecond)]
    pub fn nanosecond(&self) -> (res: u32)
        ensures
            res == self.spec_nanosecond(),
            res < 2_000_000_000,
    {
        proof {
            use_type_invariant(self);
        }
        self.nanosecond
    }

    /// The text of this moment, read as UTC, under a strftime pattern.
    pub open spec fn text(&self, format: Seq<char>) -> Option<Seq<char>> {
        date_time_text(
            self.spec_date().spec_year() as int,
            self.spec_date().spec_month() as int,
            self.spec_date().spec_day() as int,
            self.spec_hour() as int,
            self.spec_minute() as int,
            self.spec_second() as int,
            self.spec_nanosecond() as int,
            format,
        )
    }

    /// Writes this moment under a strftime pattern such as `%+`. The moment is
    /// read as UTC, so a pattern that asks for an offset gets `+00:00`. `None`
    /// where the pattern cannot be applied. Under `%+` every moment is
    /// written, in a short and plain text.
    pub fn format(&self, format: &str) -> (res: Option<String>)
        ensures
            res is Some <==> self.text(format@) is Some,
            res matches Some(text) ==> self.text(format@) == Some(text@),
            format@ == "%+"@ ==> is_written_short(res),
    {
        proof {
            use_type_invariant(self);
            use_type_invariant(&self.date);
        }
        chrono_date_time_text(
            self.date.year,
            self.date.month,
            self.date.day,
            self.hour,
            self.minute,
            self.second,
            self.nanosecond,
            format,
        )
    }
}

} // verus!
