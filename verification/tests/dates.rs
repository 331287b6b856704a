use contributed::date::Date;

fn day(year: u16, month: u8, day: u8) -> Date {
    Date { year, month, day }
}

#[test]
fn parses_a_plain_day() {
    assert_eq!(Date::parse("2024-01-03"), Some(day(2024, 1, 3)));
    assert_eq!(Date::parse("0000-01-01"), Some(day(0, 1, 1)));
    assert_eq!(Date::parse("9999-12-31"), Some(day(9999, 12, 31)));
}

#[test]
fn rejects_text_that_is_no_day() {
    assert_eq!(Date::parse(""), None);
    assert_eq!(Date::parse("2024-01"), None);
    assert_eq!(Date::parse("2024-1-03"), None);
    assert_eq!(Date::parse("2024/01/03"), None);
    assert_eq!(Date::parse("2024-01-03T00:00:00Z"), None);
    assert_eq!(Date::parse("2024-01-0a"), None);
    assert_eq!(Date::parse("+024-01-03"), None);
    assert_eq!(Date::parse("２０２４-01-03"), None);
    assert_eq!(Date::parse("2024-01-0é"), None);
}

#[test]
fn rejects_days_that_do_not_exist() {
    assert_eq!(Date::parse("2024-00-10"), None);
    assert_eq!(Date::parse("2024-13-10"), None);
    assert_eq!(Date::parse("2024-01-00"), None);
    assert_eq!(Date::parse("2024-01-32"), None);
    assert_eq!(Date::parse("2024-04-31"), None);
    assert_eq!(Date::parse("2023-02-29"), None);
}

#[test]
fn knows_leap_years() {
    assert_eq!(Date::parse("2024-02-29"), Some(day(2024, 2, 29)));
    assert_eq!(Date::parse("2000-02-29"), Some(day(2000, 2, 29)));
    assert_eq!(Date::parse("1900-02-29"), None);
    assert_eq!(Date::parse("2100-02-29"), None);
    assert_eq!(Date::new(1900, 2, 28), Some(day(1900, 2, 28)));
}

#[test]
fn new_checks_the_calendar() {
    assert_eq!(Date::new(2024, 6, 30), Some(day(2024, 6, 30)));
    assert_eq!(Date::new(2024, 6, 31), None);
    assert_eq!(Date::new(10000, 1, 1), None);
    assert_eq!(Date::new(2024, 0, 1), None);
}

#[test]
fn writes_ten_characters() {
    assert_eq!(day(2024, 1, 3).to_iso_string(), "2024-01-03");
    assert_eq!(day(7, 11, 30).to_iso_string(), "0007-11-30");
    assert_eq!(day(9999, 12, 31).to_iso_string(), "9999-12-31");
}

#[test]
fn writes_the_last_digits_of_what_is_no_day() {
    assert_eq!(day(12345, 13, 99).to_iso_string(), "2345-13-99");
    assert_eq!(day(65535, 255, 255).to_iso_string(), "5535-55-55");
    assert_eq!(day(2024, 0, 0).to_iso_string(), "2024-00-00");
}

#[test]
fn text_and_parse_are_inverse() {
    for text in ["2024-02-29", "1999-12-31", "0001-01-01", "2024-10-09"] {
        let date = Date::parse(text).unwrap();
        assert_eq!(date.to_iso_string(), text);
        assert_eq!(Date::parse(&date.to_iso_string()), Some(date));
    }
}

#[test]
fn orders_days_chronologically() {
    assert!(day(2023, 12, 31).is_before(&day(2024, 1, 1)));
    assert!(day(2024, 1, 31).is_before(&day(2024, 2, 1)));
    assert!(day(2024, 2, 1).is_before(&day(2024, 2, 2)));
    assert!(!day(2024, 2, 2).is_before(&day(2024, 2, 2)));
    assert!(!day(2024, 2, 2).is_before(&day(2024, 1, 31)));
    assert!(!day(2024, 1, 1).is_before(&day(2023, 12, 31)));
}
