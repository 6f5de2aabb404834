use ical_tz::calendar::{Date, Month, Time, UtcOffset, Weekday};
use ical_tz::error::TzError;
use ical_tz::ical::parse;
use ical_tz::nth_weekday::get_nth_weekday;
use ical_tz::resolve::offset_date_time_from_ical;
use ical_tz::rrule::{RRule, TimeZone};

fn pacific() -> TimeZone {
    TimeZone {
        id: String::from("America/Los_Angeles"),
        std_offset: UtcOffset::from_hms(-8, 0, 0).unwrap(),
        dst_offset: UtcOffset::from_hms(-7, 0, 0).unwrap(),
        dst_start: RRule {
            freq: String::from("YEARLY"),
            until: String::new(),
            count: 0,
            by_month: Month::March,
            by_day_n: 2,
            by_day_weekday: Weekday::Sunday,
        },
        dst_end: RRule {
            freq: String::from("YEARLY"),
            until: String::new(),
            count: 0,
            by_month: Month::November,
            by_day_n: 1,
            by_day_weekday: Weekday::Sunday,
        },
    }
}

#[test]
fn ical_datetime_utc_to_pst() {
    let tz = pacific();
    let dt = offset_date_time_from_ical("20241103T120000Z", &tz).unwrap();

    assert!(dt.date.year == 2024);
    assert!(dt.date.month == Month::November);
    assert!(dt.date.day == 3);
    assert!(dt.time.hour == 4);
    assert!(dt.time.minute == 00);
    assert!(dt.time.second == 00);
}

#[test]
fn ical_datetime_utc_to_pdt() {
    let tz = pacific();
    let dt = offset_date_time_from_ical("20240310T120000Z", &tz).unwrap();

    assert!(dt.date.year == 2024);
    assert!(dt.date.month == Month::March);
    assert!(dt.date.day == 10);
    assert!(dt.time.hour == 5);
    assert!(dt.time.minute == 00);
    assert!(dt.time.second == 00);
}

#[test]
fn ical_datetime_pst() {
    let tz = pacific();
    let dt = offset_date_time_from_ical("TZID=America/Los_Angeles:20240228T221518", &tz).unwrap();

    assert!(dt.date.year == 2024);
    assert!(dt.date.month == Month::February);
    assert!(dt.date.day == 28);
    assert!(dt.time.hour == 22);
    assert!(dt.time.minute == 15);
    assert!(dt.time.second == 18);
    assert_eq!(dt.offset.whole_seconds(), -8 * 3600);
}

#[test]
fn ical_datetime_pdt() {
    let tz = pacific();
    let dt = offset_date_time_from_ical("TZID=America/Los_Angeles:20240828T221518", &tz).unwrap();

    assert!(dt.date.year == 2024);
    assert!(dt.date.month == Month::August);
    assert!(dt.date.day == 28);
    assert!(dt.time.hour == 22);
    assert!(dt.time.minute == 15);
    assert!(dt.time.second == 18);
    assert_eq!(dt.offset.whole_seconds(), -7 * 3600);
}

#[test]
fn nth_weekday() {
    assert_eq!(
        get_nth_weekday(1, 2024, Month::September, Weekday::Sunday).unwrap(),
        Date::from_calendar_date(2024, Month::September, 1).unwrap()
    );
    assert_eq!(
        get_nth_weekday(5, 2024, Month::September, Weekday::Monday).unwrap(),
        Date::from_calendar_date(2024, Month::September, 30).unwrap()
    );
}

#[test]
fn nth_weekday_missing_occurrence() {
    // March 2024 has four Mondays, so a fifth does not exist.
    assert_eq!(
        get_nth_weekday(5, 2024, Month::March, Weekday::Monday),
        Err(TzError::InvalidValue)
    );
    // occurrence numbering starts at one
    assert_eq!(
        get_nth_weekday(0, 2024, Month::March, Weekday::Monday),
        Err(TzError::InvalidValue)
    );
}

#[test]
fn nth_weekday_transition_days() {
    // the Pacific transition days of 2024
    assert_eq!(
        get_nth_weekday(2, 2024, Month::March, Weekday::Sunday).unwrap(),
        Date::from_calendar_date(2024, Month::March, 10).unwrap()
    );
    assert_eq!(
        get_nth_weekday(1, 2024, Month::November, Weekday::Sunday).unwrap(),
        Date::from_calendar_date(2024, Month::November, 3).unwrap()
    );
}

#[test]
fn weekday_of_known_dates() {
    let d = Date::from_calendar_date(1, Month::January, 1).unwrap();
    assert_eq!(d.weekday(), Weekday::Monday);
    let d = Date::from_calendar_date(1970, Month::January, 1).unwrap();
    assert_eq!(d.weekday(), Weekday::Thursday);
    let d = Date::from_calendar_date(2024, Month::September, 1).unwrap();
    assert_eq!(d.weekday(), Weekday::Sunday);
}

#[test]
fn parse_records_zone_name() {
    let pt = parse("TZID=America/Los_Angeles:20240828T221518").unwrap();
    assert!(pt.is_local());
    assert_eq!(pt.zone.as_deref(), Some("America/Los_Angeles"));
    assert_eq!(pt.date, Date::from_calendar_date(2024, Month::August, 28).unwrap());
    assert_eq!(pt.time, Time::from_hms(22, 15, 18).unwrap());
}

#[test]
fn parse_utc_form() {
    let pt = parse("20241103T120000Z").unwrap();
    assert!(!pt.is_local());
    assert_eq!(pt.zone, None);
    assert_eq!(pt.date, Date::from_calendar_date(2024, Month::November, 3).unwrap());
    assert_eq!(pt.time, Time::from_hms(12, 0, 0).unwrap());
}

#[test]
fn parse_format_errors() {
    // trailing Z missing
    assert_eq!(parse("20241103T120000"), Err(TzError::Format));
    // too short
    assert_eq!(parse("20241103"), Err(TzError::Format));
    assert_eq!(parse(""), Err(TzError::Format));
    // a non-numeric field
    assert_eq!(parse("2024110AT120000Z"), Err(TzError::Format));
    // the body separator is not T
    assert_eq!(parse("20241103X120000Z"), Err(TzError::Format));
    // TZID= prefix without the closing colon
    assert_eq!(parse("TZID=America/Los_Angeles20241103T120000"), Err(TzError::Format));
    // body after the colon too short
    assert_eq!(parse("TZID=Zone:20241103T1200"), Err(TzError::Format));
}

#[test]
fn parse_invalid_value_errors() {
    // month 13
    assert_eq!(parse("20241301T120000Z"), Err(TzError::InvalidValue));
    // month 0
    assert_eq!(parse("20240001T120000Z"), Err(TzError::InvalidValue));
    // day 32
    assert_eq!(parse("20240132T120000Z"), Err(TzError::InvalidValue));
    // hour 25
    assert_eq!(parse("20240310T250000Z"), Err(TzError::InvalidValue));
    // minute 60
    assert_eq!(parse("20240310T126000Z"), Err(TzError::InvalidValue));
    // February 29th of a common year
    assert_eq!(parse("20230229T120000Z"), Err(TzError::InvalidValue));
    // year 0 is outside the supported calendar
    assert_eq!(parse("00000310T120000Z"), Err(TzError::InvalidValue));
}

#[test]
fn parse_leap_years() {
    assert!(parse("20240229T000000Z").is_ok());
    assert!(parse("20000229T000000Z").is_ok());
    assert_eq!(parse("19000229T000000Z"), Err(TzError::InvalidValue));
}

#[test]
fn resolve_out_of_calendar_range() {
    // a UTC reading early on the first supported day, moved eight hours
    // back, would leave the calendar
    let tz = pacific();
    assert_eq!(
        offset_date_time_from_ical("00010101T003000Z", &tz),
        Err(TzError::OffsetOutOfRange)
    );
}
