use vstd::prelude::*;

use crate::error::TzError;

verus! {

/// A calendar month.
#[derive(Clone, Copy, Debug, PartialEq, Eq, Structural)]
pub enum Month {
    January,
    February,
    March,
    April,
    May,
    June,
    July,
    August,
    September,
    October,
    November,
    December,
}

impl Month {
    /// The month's number, January being 1.
    pub open spec fn as_int(self) -> int {
        match self {
            Month::January => 1,
            Month::February => 2,
            Month::March => 3,
            Month::April => 4,
            Month::May => 5,
            Month::June => 6,
            Month::July => 7,
            Month::August => 8,
            Month::September => 9,
            Month::October => 10,
            Month::November => 11,
            Month::December => 12,
        }
    }

    /// The month's number, January being 1.
    pub fn number(self) -> (n: u8)
        ensures
            n == self.as_int(),
    {
        match self {
            Month::January => 1,
            Month::February => 2,
            Month::March => 3,
            Month::April => 4,
            Month::May => 5,
            Month::June => 6,
            Month::July => 7,
            Month::August => 8,
            Month::September => 9,
            Month::October => 10,
            Month::November => 11,
            Month::December => 12,
        }
    }

    /// The month whose number is `m`, December for anything past 12.
    pub open spec fn from_int(m: int) -> Month {
        if m <= 1 {
            Month::January
        } else if m == 2 {
            Month::February
        } else if m == 3 {
            Month::March
        } else if m == 4 {
            Month::April
        } else if m == 5 {
            Month::May
        } else if m == 6 {
            Month::June
        } else if m == 7 {
            Month::July
        } else if m == 8 {
            Month::August
        } else if m == 9 {
            Month::September
        } else if m == 10 {
            Month::October
        } else if m == 11 {
            Month::November
        } else {
            Month::December
        }
    }

    /// The month with the given number, if 1 to 12.
    pub fn from_number(n: u8) -> (r: Option<Month>)
        ensures
            r is Some <==> 1 <= n <= 12,
            r matches Some(m) ==> m.as_int() == n && m == Month::from_int(n as int),
    {
        match n {
            1 => Some(Month::January),
            2 => Some(Month::February),
            3 => Some(Month::March),
            4 => Some(Month::April),
            5 => Some(Month::May),
            6 => Some(Month::June),
            7 => Some(Month::July),
            8 => Some(Month::August),
            9 => Some(Month::September),
            10 => Some(Month::October),
            11 => Some(Month::November),
            12 => Some(Month::December),
            _ => None,
        }
    }

    /// The month that precedes this one within a year.
    pub fn prev_in_year(self) -> (r: Month)
        requires
            self != Month::January,
        ensures
            r.as_int() == self.as_int() - 1,
    {
        match self {
            Month::January => Month::January,
            Month::February => Month::January,
            Month::March => Month::February,
            Month::April => Month::March,
            Month::May => Month::April,
            Month::June => Month::May,
            Month::July => Month::June,
            Month::August => Month::July,
            Month::September => Month::August,
            Month::October => Month::September,
            Month::November => Month::October,
            Month::December => Month::November,
        }
    }

    /// The month that follows this one within a year.
    pub fn next_in_year(self) -> (r: Month)
        requires
            self != Month::December,
        ensures
            r.as_int() == self.as_int() + 1,
    {
        match self {
            Month::January => Month::February,
            Month::February => Month::March,
            Month::March => Month::April,
            Month::April => Month::May,
            Month::May => Month::June,
            Month::June => Month::July,
            Month::July => Month::August,
            Month::August => Month::September,
            Month::September => Month::October,
            Month::October => Month::November,
            Month::November => Month::December,
            Month::December => Month::December,
        }
    }
}

/// A day of the week.
#[derive(Clone, Copy, Debug, PartialEq, Eq, Structural)]
pub enum Weekday {
    Monday,
    Tuesday,
    Wednesday,
    Thursday,
    Friday,
    Saturday,
    Sunday,
}

impl Weekday {
    /// The weekday's index, Monday being 0.
    pub open spec fn index(self) -> int {
        match self {
            Weekday::Monday => 0,
            Weekday::Tuesday => 1,
            Weekday::Wednesday => 2,
            Weekday::Thursday => 3,
            Weekday::Friday => 4,
            Weekday::Saturday => 5,
            Weekday::Sunday => 6,
        }
    }

    /// The weekday's index, Monday being 0.
    pub fn number_days_from_monday(self) -> (n: u8)
        ensures
            n == self.index(),
    {
        match self {
            Weekday::Monday => 0,
            Weekday::Tuesday => 1,
            Weekday::Wednesday => 2,
            Weekday::Thursday => 3,
            Weekday::Friday => 4,
            Weekday::Saturday => 5,
            Weekday::Sunday => 6,
        }
    }

    /// The weekday with the given index, Monday being 0.
    pub fn from_index(i: u8) -> (r: Weekday)
        requires
            i < 7,
        ensures
            r.index() == i,
    {
        match i {
            0 => Weekday::Monday,
            1 => Weekday::Tuesday,
            2 => Weekday::Wednesday,
            3 => Weekday::Thursday,
            4 => Weekday::Friday,
            5 => Weekday::Saturday,
            _ => Weekday::Sunday,
        }
    }
}

/// Whether a year is a leap year in the proleptic Gregorian calendar.
pub open spec fn is_leap_year(y: int) -> bool {
    y % 4 == 0 && (y % 100 != 0 || y % 400 == 0)
}

/// The number of days of a year: 366 in a leap year, else 365.
pub open spec fn year_length(y: int) -> int {
    if is_leap_year(y) {
        366
    } else {
        365
    }
}

/// The number of days of month `m` (1 to 12) of year `y`.
pub open spec fn days_in_month(y: int, m: int) -> int {
    if m == 2 {
        if is_leap_year(y) {
            29
        } else {
            28
        }
    } else if m == 4 || m == 6 || m == 9 || m == 11 {
        30
    } else {
        31
    }
}

/// The number of days of the years 1 to `y - 1`: how many days lie before
/// January 1st of year `y`, counted from January 1st of year 1.
pub open spec fn days_before_year(y: int) -> int
    decreases y,
{
    if y <= 1 {
        0
    } else {
        days_before_year(y - 1) + year_length(y - 1)
    }
}

/// The number of days of year `y` that lie before the first of month `m`.
pub open spec fn days_before_month(y: int, m: int) -> int {
    let leap: int = if is_leap_year(y) {
        1
    } else {
        0
    };
    if m <= 1 {
        0
    } else if m == 2 {
        31
    } else if m == 3 {
        59 + leap
    } else if m == 4 {
        90 + leap
    } else if m == 5 {
        120 + leap
    } else if m == 6 {
        151 + leap
    } else if m == 7 {
        181 + leap
    } else if m == 8 {
        212 + leap
    } else if m == 9 {
        243 + leap
    } else if m == 10 {
        273 + leap
    } else if m == 11 {
        304 + leap
    } else {
        334 + leap
    }
}

/// The day ordinal of a calendar day within the supported range: how many
/// days lie between January 1st of year 1 and the given day. The ordinal of
/// 0001-01-01 itself is 0, and each next calendar day adds 1.
pub open spec fn day_ordinal(y: int, m: int, d: int) -> int {
    days_before_year(y) + days_before_month(y, m) + d - 1
}

/// The weekday index (Monday being 0) of a calendar day. January 1st of
/// year 1 of the proleptic Gregorian calendar was a Monday, so the index is
/// the day ordinal modulo 7.
pub open spec fn weekday_index_of(y: int, m: int, d: int) -> int {
    day_ordinal(y, m, d) % 7
}

/// A calendar date, in years 1 to 9999 of the proleptic Gregorian calendar.
#[derive(Clone, Copy, Debug, PartialEq, Eq, Structural)]
pub struct Date {
    pub year: i32,
    pub month: Month,
    pub day: u8,
}

impl Date {
    /// Whether the fields form a real calendar day of the supported range.
    pub open spec fn valid(self) -> bool {
        &&& 1 <= self.year <= 9999
        &&& 1 <= self.day <= days_in_month(self.year as int, self.month.as_int())
    }

    /// The date's day ordinal: 0 for 0001-01-01, adding 1 per day.
    pub open spec fn ordinal(self) -> int {
        day_ordinal(self.year as int, self.month.as_int(), self.day as int)
    }

    /// The date's weekday index, Monday being 0.
    pub open spec fn weekday_index(self) -> int {
        weekday_index_of(self.year as int, self.month.as_int(), self.day as int)
    }

    /// Builds the date with the given fields; fails if they do not form a
    /// real calendar day of the supported range.
    pub fn from_calendar_date(year: i32, month: Month, day: u8) -> (r: Result<Date, TzError>)
        ensures
            r is Ok <==> (Date { year, month, day }).valid(),
            r matches Ok(d) ==> d == (Date { year, month, day }),
            r is Err ==> r == Err::<Date, TzError>(TzError::InvalidValue),
    {
        if year < 1 || year > 9999 {
            return Err(TzError::InvalidValue);
        }
        let dim = days_in_month_of(year, month);
        if day < 1 || day > dim {
            return Err(TzError::InvalidValue);
        }
        Ok(Date { year, month, day })
    }

    /// The date's weekday.
    pub fn weekday(&self) -> (w: Weekday)
        requires
            self.valid(),
        ensures
            w.index() == self.weekday_index(),
    {
        let ord = ordinal_of(*self);
        Weekday::from_index((ord % 7) as u8)
    }
}

/// Whether `y` is a leap year.
pub fn is_leap_year_of(y: i32) -> (r: bool)
    requires
        1 <= y <= 9999,
    ensures
        r == is_leap_year(y as int),
{
    y % 4 == 0 && (y % 100 != 0 || y % 400 == 0)
}

/// The number of days of month `month` of year `y`.
pub fn days_in_month_of(y: i32, month: Month) -> (n: u8)
    requires
        1 <= y <= 9999,
    ensures
        n == days_in_month(y as int, month.as_int()),
{
    match month {
        Month::February => if is_leap_year_of(y) {
            29
        } else {
            28
        },
        Month::April | Month::June | Month::September | Month::November => 30,
        _ => 31,
    }
}

/// The number of days of year `y` that lie before the first of `month`.
fn days_before_month_of(y: i32, month: Month) -> (n: u16)
    requires
        1 <= y <= 9999,
    ensures
        n == days_before_month(y as int, month.as_int()),
{
    let leap: u16 = if is_leap_year_of(y) {
        1
    } else {
        0
    };
    match month {
        Month::January => 0,
        Month::February => 31,
        Month::March => 59 + leap,
        Month::April => 90 + leap,
        Month::May => 120 + leap,
        Month::June => 151 + leap,
        Month::July => 181 + leap,
        Month::August => 212 + leap,
        Month::September => 243 + leap,
        Month::October => 273 + leap,
        Month::November => 304 + leap,
        Month::December => 334 + leap,
    }
}

/// Bounds on `days_before_year`: it is non-negative and grows by at most 366
/// per year.
pub proof fn lemma_days_before_year_bound(y: int)
    requires
        y >= 1,
    ensures
        0 <= days_before_year(y) <= 366 * (y - 1),
    decreases y,
{
    if y > 1 {
        lemma_days_before_year_bound(y - 1);
    }
}

/// The date's day ordinal: 0 for 0001-01-01, adding 1 per day.
pub fn ordinal_of(date: Date) -> (ord: u32)
    requires
        date.valid(),
    ensures
        ord == date.ordinal(),
        ord < 3_660_000,
{
    let mut acc: u32 = 0;
    let mut i: i32 = 1;
    while i < date.year
        invariant
            1 <= i <= date.year <= 9999,
            acc == days_before_year(i as int),
            acc <= 366 * (i - 1),
        decreases date.year - i,
    {
        let yl: u32 = if is_leap_year_of(i) {
            366
        } else {
            365
        };
        acc = acc + yl;
        i = i + 1;
    }
    proof {
        lemma_days_before_year_bound(date.year as int);
    }
    acc + days_before_month_of(date.year, date.month) as u32 + (date.day - 1) as u32
}

/// `days_before_year` never shrinks as the year grows.
proof fn lemma_days_before_year_mono(a: int, b: int)
    requires
        a <= b,
    ensures
        days_before_year(a) <= days_before_year(b),
    decreases b - a,
{
    if a < b {
        lemma_days_before_year_mono(a, b - 1);
    }
}

/// Every valid date's ordinal lies below the ordinal of the day after the
/// last supported day.
pub proof fn lemma_ordinal_bound(date: Date)
    requires
        date.valid(),
    ensures
        0 <= date.ordinal() < days_before_year(10000),
{
    let y = date.year as int;
    lemma_days_before_year_bound(y);
    assert(days_before_month(y, date.month.as_int()) + date.day - 1 <= year_length(y) - 1);
    assert(days_before_year(y + 1) == days_before_year(y) + year_length(y));
    lemma_days_before_year_mono(y + 1, 10000);
}

/// Day ordinals separate valid dates: an earlier month or year gives a
/// strictly smaller ordinal range.
proof fn lemma_ordinal_separates(d1: Date, d2: Date)
    requires
        d1.valid(),
        d2.valid(),
        d1.ordinal() == d2.ordinal(),
    ensures
        d1 == d2,
{
    let y1 = d1.year as int;
    let y2 = d2.year as int;
    if y1 < y2 {
        assert(days_before_year(y1 + 1) == days_before_year(y1) + year_length(y1));
        lemma_days_before_year_mono(y1 + 1, y2);
        assert(false);
    }
    if y2 < y1 {
        assert(days_before_year(y2 + 1) == days_before_year(y2) + year_length(y2));
        lemma_days_before_year_mono(y2 + 1, y1);
        assert(false);
    }
}

/// The second ordinal separates valid readings: a valid date and time of
/// day are determined by their second ordinal, so a contract that fixes
/// `datetime_sec` of a valid result fixes the result.
pub proof fn lemma_datetime_sec_injective(d1: Date, t1: Time, d2: Date, t2: Time)
    requires
        d1.valid(),
        t1.valid(),
        d2.valid(),
        t2.valid(),
        datetime_sec(d1, t1) == datetime_sec(d2, t2),
    ensures
        d1 == d2,
        t1 == t2,
{
    assert(d1.ordinal() == d2.ordinal() && t1.seconds_of_day() == t2.seconds_of_day());
    lemma_ordinal_separates(d1, d2);
}

/// The calendar day after `date`; fails only on the last supported day.
pub fn next_date(date: Date) -> (r: Result<Date, TzError>)
    requires
        date.valid(),
    ensures
        r is Ok <==> !(date.year == 9999 && date.month == Month::December && date.day == 31),
        r matches Ok(d) ==> d.valid() && d.ordinal() == date.ordinal() + 1,
        r is Err ==> r == Err::<Date, TzError>(TzError::OffsetOutOfRange),
{
    let dim = days_in_month_of(date.year, date.month);
    if date.day < dim {
        Ok(Date { year: date.year, month: date.month, day: date.day + 1 })
    } else if date.month != Month::December {
        Ok(Date { year: date.year, month: date.month.next_in_year(), day: 1 })
    } else if date.year < 9999 {
        Ok(Date { year: date.year + 1, month: Month::January, day: 1 })
    } else {
        Err(TzError::OffsetOutOfRange)
    }
}

/// The calendar day before `date`; fails only on the first supported day.
pub fn prev_date(date: Date) -> (r: Result<Date, TzError>)
    requires
        date.valid(),
    ensures
        r is Ok <==> !(date.year == 1 && date.month == Month::January && date.day == 1),
        r matches Ok(d) ==> d.valid() && d.ordinal() == date.ordinal() - 1,
        r is Err ==> r == Err::<Date, TzError>(TzError::OffsetOutOfRange),
{
    if date.day > 1 {
        Ok(Date { year: date.year, month: date.month, day: date.day - 1 })
    } else if date.month != Month::January {
        let pm = date.month.prev_in_year();
        Ok(Date { year: date.year, month: pm, day: days_in_month_of(date.year, pm) })
    } else if date.year > 1 {
        Ok(Date { year: date.year - 1, month: Month::December, day: 31 })
    } else {
        Err(TzError::OffsetOutOfRange)
    }
}

/// A time of day with second precision.
#[derive(Clone, Copy, Debug, PartialEq, Eq, Structural)]
pub struct Time {
    pub hour: u8,
    pub minute: u8,
    pub second: u8,
}

impl Time {
    /// Whether the fields form a real time of day.
    pub open spec fn valid(self) -> bool {
        self.hour < 24 && self.minute < 60 && self.second < 60
    }

    /// The number of seconds of the day that lie before this time.
    pub open spec fn seconds_of_day(self) -> int {
        self.hour * 3600 + self.minute * 60 + self.second
    }

    /// Builds the time with the given fields; fails if they do not form a
    /// real time of day.
    pub fn from_hms(hour: u8, minute: u8, second: u8) -> (r: Result<Time, TzError>)
        ensures
            r is Ok <==> (Time { hour, minute, second }).valid(),
            r matches Ok(t) ==> t == (Time { hour, minute, second }),
            r is Err ==> r == Err::<Time, TzError>(TzError::InvalidValue),
    {
        if hour < 24 && minute < 60 && second < 60 {
            Ok(Time { hour, minute, second })
        } else {
            Err(TzError::InvalidValue)
        }
    }
}

/// A UTC offset, stored as signed whole seconds, under one day in size.
#[derive(Clone, Copy, Debug, PartialEq, Eq, Structural)]
pub struct UtcOffset {
    pub seconds: i32,
}

impl UtcOffset {
    /// Whether the offset is under one day in size.
    pub open spec fn valid(self) -> bool {
        -86399 <= self.seconds <= 86399
    }

    /// Builds the offset `hours:minutes:seconds` east of UTC; fails unless
    /// each component is in range and all have the same sign or are zero.
    pub fn from_hms(hours: i8, minutes: i8, seconds: i8) -> (r: Result<UtcOffset, TzError>)
        ensures
            r is Ok <==> {
                &&& -23 <= hours <= 23
                &&& -59 <= minutes <= 59
                &&& -59 <= seconds <= 59
                &&& ((hours >= 0 && minutes >= 0 && seconds >= 0) || (hours <= 0 && minutes <= 0
                    && seconds <= 0))
            },
            r matches Ok(o) ==> o.seconds == hours * 3600 + minutes * 60 + seconds && o.valid(),
            r is Err ==> r == Err::<UtcOffset, TzError>(TzError::InvalidValue),
    {
        let in_range = -23 <= hours && hours <= 23 && -59 <= minutes && minutes <= 59 && -59
            <= seconds && seconds <= 59;
        let same_sign = (hours >= 0 && minutes >= 0 && seconds >= 0) || (hours <= 0 && minutes <= 0
            && seconds <= 0);
        if in_range && same_sign {
            Ok(UtcOffset { seconds: hours as i32 * 3600 + minutes as i32 * 60 + seconds as i32 })
        } else {
            Err(TzError::InvalidValue)
        }
    }

    /// The offset in whole seconds east of UTC.
    pub fn whole_seconds(self) -> (s: i32)
        ensures
            s == self.seconds,
    {
        self.seconds
    }
}

/// The second ordinal of a date and time of day: the number of seconds
/// between 0001-01-01 00:00:00 and the given wall-clock reading.
pub open spec fn datetime_sec(date: Date, time: Time) -> int {
    date.ordinal() * 86400 + time.seconds_of_day()
}

/// The second ordinal of a date and time of day.
pub fn datetime_seconds(date: Date, time: Time) -> (s: i64)
    requires
        date.valid(),
        time.valid(),
    ensures
        s == datetime_sec(date, time),
        0 <= s < 3_660_000i64 * 86400,
{
    let ord = ordinal_of(date);
    let sod: u32 = time.hour as u32 * 3600 + time.minute as u32 * 60 + time.second as u32;
    ord as i64 * 86400 + sod as i64
}

} // verus!
