use ical_tz::calendar::{Date, Month, Time, UtcOffset, Weekday};
use ical_tz::error::TzError;
use ical_tz::resolve::{apply_offset, offset_date_time_from_ical};
use ical_tz::rrule::{RRule, TimeZone};

fn pacific() -> TimeZone {
    TimeZone {
        id: String::from("America/Los_Angeles"),
        std_offset: UtcOffset::from_hms(-8, 0, 0).unwrap(),
        dst_offset: UtcOffset::from_hms(-7, 0, 0).unwrap(),
        dst_start: RRule {
            freq: String::from("YEARLY"),
            until: String::new(),
            count: 0,
            by_month: Month::March,
            by_day_n: 2,
            by_day_weekday: Weekday::Sunday,
        },
        dst_end: RRule {
            freq: String::from("YEARLY"),
            until: String::new(),
            count: 0,
            by_month: Month::November,
            by_day_n: 1,
            by_day_weekday: Weekday::Sunday,
        },
    }
}

fn date(y: i32, m: Month, d: u8) -> Date {
    Date::from_calendar_date(y, m, d).unwrap()
}

fn time(h: u8, m: u8, s: u8) -> Time {
    Time::from_hms(h, m, s).unwrap()
}

#[test]
fn get_tz_offset_pst() {
    let tz = pacific();
    let off = TimeZone::get_tz_offset(date(2024, Month::January, 15), time(12, 0, 0), true, &tz);
    assert_eq!(off.unwrap().whole_seconds(), -8 * 3600);
    let off = TimeZone::get_tz_offset(date(2024, Month::December, 25), time(9, 30, 0), true, &tz);
    assert_eq!(off.unwrap().whole_seconds(), -8 * 3600);
}

#[test]
fn get_tz_offset_pdt() {
    let tz = pacific();
    let off = TimeZone::get_tz_offset(date(2024, Month::July, 4), time(12, 0, 0), true, &tz);
    assert_eq!(off.unwrap().whole_seconds(), -7 * 3600);
    let off = TimeZone::get_tz_offset(date(2024, Month::March, 20), time(0, 0, 0), true, &tz);
    assert_eq!(off.unwrap().whole_seconds(), -7 * 3600);
}

#[test]
fn get_tz_offset_utc_during_pst() {
    let tz = pacific();
    let off = TimeZone::get_tz_offset(date(2024, Month::December, 25), time(12, 0, 0), false, &tz);
    assert_eq!(off.unwrap().whole_seconds(), -8 * 3600);
    // 2024-03-10 09:59:59 UTC is still one second before the spring
    // transition, which falls at 02:00 standard time = 10:00 UTC
    let off = TimeZone::get_tz_offset(date(2024, Month::March, 10), time(9, 59, 59), false, &tz);
    assert_eq!(off.unwrap().whole_seconds(), -8 * 3600);
}

#[test]
fn get_tz_offset_utc_during_pdt() {
    let tz = pacific();
    let off = TimeZone::get_tz_offset(date(2024, Month::June, 1), time(12, 0, 0), false, &tz);
    assert_eq!(off.unwrap().whole_seconds(), -7 * 3600);
    // 2024-03-10 10:00:00 UTC is exactly the spring transition and already
    // belongs to the daylight-saving period
    let off = TimeZone::get_tz_offset(date(2024, Month::March, 10), time(10, 0, 0), false, &tz);
    assert_eq!(off.unwrap().whole_seconds(), -7 * 3600);
}

#[test]
fn get_tz_offset_local_boundaries() {
    let tz = pacific();
    // exactly 02:00 local on the spring transition day: the new regime applies
    let off = TimeZone::get_tz_offset(date(2024, Month::March, 10), time(2, 0, 0), true, &tz);
    assert_eq!(off.unwrap().whole_seconds(), -7 * 3600);
    // one second before it: still standard time
    let off = TimeZone::get_tz_offset(date(2024, Month::March, 10), time(1, 59, 59), true, &tz);
    assert_eq!(off.unwrap().whole_seconds(), -8 * 3600);
    // exactly 02:00 local on the fall transition day: standard time again
    let off = TimeZone::get_tz_offset(date(2024, Month::November, 3), time(2, 0, 0), true, &tz);
    assert_eq!(off.unwrap().whole_seconds(), -8 * 3600);
    // one second before it: still daylight-saving time
    let off = TimeZone::get_tz_offset(date(2024, Month::November, 3), time(1, 59, 59), true, &tz);
    assert_eq!(off.unwrap().whole_seconds(), -7 * 3600);
}

#[test]
fn get_tz_offset_rule_without_occurrence() {
    // a rule asking for a fifth Monday fails in a year whose March has four
    let mut tz = pacific();
    tz.dst_start.by_day_n = 5;
    tz.dst_start.by_day_weekday = Weekday::Monday;
    let r = TimeZone::get_tz_offset(date(2024, Month::June, 1), time(12, 0, 0), true, &tz);
    assert_eq!(r, Err(TzError::InvalidValue));
}

#[test]
fn get_tz_offset_end_rule_without_occurrence() {
    // an invalid end rule fails the resolution even for a reading long
    // before the start transition: both transition days are constructed
    // up front
    let mut tz = pacific();
    tz.dst_end.by_day_n = 5;
    tz.dst_end.by_day_weekday = Weekday::Monday;
    let r = TimeZone::get_tz_offset(date(2024, Month::January, 10), time(8, 0, 0), true, &tz);
    assert_eq!(r, Err(TzError::InvalidValue));
}

#[test]
fn same_instant_same_offset() {
    // one instant, rendered as a UTC reading and as the Pacific wall-clock
    // reading seven hours earlier, resolves to the same offset
    let tz = pacific();
    let from_utc = offset_date_time_from_ical("20240829T051518Z", &tz).unwrap();
    let from_local =
        offset_date_time_from_ical("TZID=America/Los_Angeles:20240828T221518", &tz).unwrap();
    assert_eq!(from_utc, from_local);
    assert_eq!(from_utc.offset.whole_seconds(), -7 * 3600);
}

#[test]
fn resolution_is_repeatable() {
    let tz = pacific();
    let first = offset_date_time_from_ical("20240310T120000Z", &tz);
    let second = offset_date_time_from_ical("20240310T120000Z", &tz);
    assert_eq!(first, second);
}

#[test]
fn apply_offset_carries_days() {
    // forward across a year boundary
    let (d, t) = apply_offset(
        date(2024, Month::December, 31),
        time(23, 30, 0),
        UtcOffset::from_hms(1, 0, 0).unwrap(),
    )
        .unwrap();
    assert_eq!(d, date(2025, Month::January, 1));
    assert_eq!(t, time(0, 30, 0));
    // backward onto a leap day
    let (d, t) = apply_offset(
        date(2024, Month::March, 1),
        time(0, 30, 0),
        UtcOffset::from_hms(-1, 0, 0).unwrap(),
    )
        .unwrap();
    assert_eq!(d, date(2024, Month::February, 29));
    assert_eq!(t, time(23, 30, 0));
}

#[test]
fn utc_offset_construction() {
    assert_eq!(UtcOffset::from_hms(-8, 0, 0).unwrap().whole_seconds(), -28800);
    assert_eq!(UtcOffset::from_hms(5, 30, 0).unwrap().whole_seconds(), 19800);
    // mixed signs are refused
    assert_eq!(UtcOffset::from_hms(-8, 30, 0), Err(TzError::InvalidValue));
    // hours out of range are refused
    assert_eq!(UtcOffset::from_hms(24, 0, 0), Err(TzError::InvalidValue));
}
