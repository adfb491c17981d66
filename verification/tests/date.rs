use person_registry::date::{BirthDate, MAX_YEAR, MIN_YEAR, WIRE_FORMAT};
use person_registry::validation::ValidationError;

fn parts(date: BirthDate) -> (i32, u8, u8) {
    (date.year(), date.month(), date.day())
}

#[test]
fn wire_format_is_year_month_day() {
    assert_eq!(WIRE_FORMAT, "[year]-[month]-[day]");
    assert_eq!(MIN_YEAR, -9999);
    assert_eq!(MAX_YEAR, 9999);
}

#[test]
fn from_calendar_date_accepts_days_that_exist() {
    assert_eq!(parts(BirthDate::from_calendar_date(1990, 1, 1).unwrap()), (1990, 1, 1));
    assert_eq!(parts(BirthDate::from_calendar_date(2023, 12, 31).unwrap()), (2023, 12, 31));
    assert_eq!(parts(BirthDate::from_calendar_date(2023, 4, 30).unwrap()), (2023, 4, 30));
    assert_eq!(parts(BirthDate::from_calendar_date(2023, 2, 28).unwrap()), (2023, 2, 28));
}

#[test]
fn from_calendar_date_refuses_days_that_do_not_exist() {
    assert!(BirthDate::from_calendar_date(2023, 0, 1).is_none());
    assert!(BirthDate::from_calendar_date(2023, 13, 1).is_none());
    assert!(BirthDate::from_calendar_date(2023, 1, 0).is_none());
    assert!(BirthDate::from_calendar_date(2023, 1, 32).is_none());
    assert!(BirthDate::from_calendar_date(2023, 4, 31).is_none());
    assert!(BirthDate::from_calendar_date(2023, 6, 31).is_none());
    assert!(BirthDate::from_calendar_date(2023, 9, 31).is_none());
    assert!(BirthDate::from_calendar_date(2023, 11, 31).is_none());
    assert!(BirthDate::from_calendar_date(2023, 2, 29).is_none());
    assert!(BirthDate::from_calendar_date(2023, 2, 30).is_none());
}

#[test]
fn from_calendar_date_knows_leap_years() {
    assert!(BirthDate::from_calendar_date(2024, 2, 29).is_some());
    assert!(BirthDate::from_calendar_date(2000, 2, 29).is_some());
    assert!(BirthDate::from_calendar_date(1900, 2, 29).is_none());
    assert!(BirthDate::from_calendar_date(2100, 2, 29).is_none());
    assert!(BirthDate::from_calendar_date(0, 2, 29).is_some());
    assert!(BirthDate::from_calendar_date(-4, 2, 29).is_some());
    assert!(BirthDate::from_calendar_date(-100, 2, 29).is_none());
    assert!(BirthDate::from_calendar_date(-400, 2, 29).is_some());
    assert!(BirthDate::from_calendar_date(2024, 2, 30).is_none());
}

#[test]
fn from_calendar_date_keeps_to_the_range_of_years() {
    assert!(BirthDate::from_calendar_date(9999, 12, 31).is_some());
    assert!(BirthDate::from_calendar_date(10000, 1, 1).is_none());
    assert!(BirthDate::from_calendar_date(-9999, 1, 1).is_some());
    assert!(BirthDate::from_calendar_date(-10000, 12, 31).is_none());
    assert!(BirthDate::from_calendar_date(i32::MAX, 1, 1).is_none());
    assert!(BirthDate::from_calendar_date(i32::MIN, 1, 1).is_none());
}

#[test]
fn from_calendar_date_agrees_with_the_time_crate() {
    for year in [-9999, -401, -400, -100, -4, -1, 0, 1, 1900, 1999, 2000, 2023, 2024, 9999] {
        for month in 1..=12u8 {
            for day in 0..=32u8 {
                let theirs =
                    time::Date::from_calendar_date(year, time::Month::try_from(month).unwrap(), day);
                let ours = BirthDate::from_calendar_date(year, month, day);
                assert_eq!(ours.is_some(), theirs.is_ok(), "{year}-{month}-{day}");
            }
        }
    }
}

#[test]
fn from_parsed_accepts_what_names_a_day() {
    assert_eq!(parts(BirthDate::from_parsed(Some((1990, 1, 1))).unwrap()), (1990, 1, 1));
    assert_eq!(parts(BirthDate::from_parsed(Some((2000, 2, 29))).unwrap()), (2000, 2, 29));
}

#[test]
fn from_parsed_refuses_everything_else() {
    assert_eq!(BirthDate::from_parsed(None).unwrap_err(), ValidationError::MalformedDate);
    assert_eq!(
        BirthDate::from_parsed(Some((1990, 2, 30))).unwrap_err(),
        ValidationError::MalformedDate
    );
    assert_eq!(
        BirthDate::from_parsed(Some((1990, 13, 1))).unwrap_err(),
        ValidationError::MalformedDate
    );
}

#[test]
fn parse_reads_year_month_day() {
    assert_eq!(parts(BirthDate::parse("1990-01-01").unwrap()), (1990, 1, 1));
    assert_eq!(parts(BirthDate::parse("2024-02-29").unwrap()), (2024, 2, 29));
    assert_eq!(parts(BirthDate::parse("0001-12-31").unwrap()), (1, 12, 31));
    assert_eq!(parts(BirthDate::parse("9999-12-31").unwrap()), (9999, 12, 31));
}

#[test]
fn parse_refuses_days_that_do_not_exist() {
    assert_eq!(BirthDate::parse("1990-13-01").unwrap_err(), ValidationError::MalformedDate);
    assert_eq!(BirthDate::parse("1990-00-10").unwrap_err(), ValidationError::MalformedDate);
    assert_eq!(BirthDate::parse("1990-02-30").unwrap_err(), ValidationError::MalformedDate);
    assert_eq!(BirthDate::parse("2023-02-29").unwrap_err(), ValidationError::MalformedDate);
    assert_eq!(BirthDate::parse("1990-01-00").unwrap_err(), ValidationError::MalformedDate);
    assert_eq!(BirthDate::parse("1990-01-32").unwrap_err(), ValidationError::MalformedDate);
}

#[test]
fn parse_refuses_text_in_another_shape() {
    for text in [
        "",
        "1990",
        "1990-01",
        "1990-1-1",
        "90-01-01",
        "1990/01/01",
        "01-01-1990",
        "1990-01-01 ",
        " 1990-01-01",
        "1990-01-01T00:00:00Z",
        "1990-01-0a",
        "yesterday",
    ] {
        assert_eq!(BirthDate::parse(text).unwrap_err(), ValidationError::MalformedDate, "{text:?}");
    }
}

#[test]
fn parse_agrees_with_the_time_crate() {
    let description = time::format_description::parse_borrowed::<1>(WIRE_FORMAT).unwrap();
    for text in ["1990-01-01", "2024-02-29", "2023-02-29", "-0044-03-15", "+2001-09-09", "10000-01-01", "x"] {
        let theirs = time::Date::parse(text, &description).ok();
        let ours = BirthDate::parse(text).ok();
        assert_eq!(
            ours.map(parts),
            theirs.map(|date| (date.year(), u8::from(date.month()), date.day())),
            "{text:?}"
        );
    }
}

#[test]
fn dates_are_copied_whole() {
    let date = BirthDate::parse("1985-07-23").unwrap();
    let copy = date;
    assert_eq!(parts(copy), parts(date));
    assert_eq!(parts(date.clone()), (1985, 7, 23));
}
