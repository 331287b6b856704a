use contributed::calendar::{ContributionCalendar, ContributionDay};
use contributed::date::Date;
use contributed::error::MalformedDetail;
use contributed::transport::RawDay;

fn raw(date: &str, count: i64) -> RawDay {
    RawDay { date: date.to_string(), count }
}

fn entry(year: u16, month: u8, day: u8, count: u64) -> ContributionDay {
    ContributionDay { date: Date { year, month, day }, count }
}

#[test]
fn new_calendar_is_empty() {
    let calendar = ContributionCalendar::new();
    assert_eq!(calendar.len(), 0);
    assert_eq!(calendar.get(0), None);
    assert!(calendar.days().is_empty());
}

#[test]
fn merges_pages_in_order() {
    let mut calendar = ContributionCalendar::new();
    assert_eq!(calendar.merge(&vec![raw("2024-01-01", 3), raw("2024-01-02", 0)]), Ok(()));
    assert_eq!(calendar.merge(&vec![]), Ok(()));
    assert_eq!(calendar.merge(&vec![raw("2024-03-01", 5)]), Ok(()));
    assert_eq!(
        calendar.days(),
        &vec![entry(2024, 1, 1, 3), entry(2024, 1, 2, 0), entry(2024, 3, 1, 5)]
    );
    assert_eq!(calendar.len(), 3);
    assert_eq!(calendar.get(2), Some(entry(2024, 3, 1, 5)));
    assert_eq!(calendar.get(3), None);
}

#[test]
fn rejected_page_changes_nothing() {
    let mut calendar = ContributionCalendar::new();
    calendar.merge(&vec![raw("2024-01-01", 3)]).unwrap();
    let before = calendar.clone();
    assert_eq!(
        calendar.merge(&vec![raw("2024-01-02", 1), raw("2024-01-03", -1)]),
        Err(MalformedDetail::NegativeCount)
    );
    assert_eq!(calendar, before);
}

#[test]
fn names_the_fault_of_the_first_bad_entry() {
    let mut calendar = ContributionCalendar::new();
    calendar.merge(&vec![raw("2024-01-05", 1), raw("2024-01-07", 1)]).unwrap();
    assert_eq!(calendar.merge(&vec![raw("2024-01", 1)]), Err(MalformedDetail::NotADay));
    assert_eq!(calendar.merge(&vec![raw("2024-01-08", -3)]), Err(MalformedDetail::NegativeCount));
    assert_eq!(calendar.merge(&vec![raw("2024-01-07", 2)]), Err(MalformedDetail::DuplicateDate));
    assert_eq!(calendar.merge(&vec![raw("2024-01-05", 2)]), Err(MalformedDetail::DuplicateDate));
    assert_eq!(calendar.merge(&vec![raw("2024-01-06", 2)]), Err(MalformedDetail::OutOfOrder));
    assert_eq!(calendar.merge(&vec![raw("2023-12-31", 2)]), Err(MalformedDetail::OutOfOrder));
    assert_eq!(
        calendar.merge(&vec![raw("2024-01-09", 2), raw("2024-01-09", 2)]),
        Err(MalformedDetail::DuplicateDate)
    );
    assert_eq!(
        calendar.merge(&vec![raw("2024-01-10", 2), raw("2024-01-09", 2)]),
        Err(MalformedDetail::OutOfOrder)
    );
    assert_eq!(
        calendar.merge(&vec![raw("bad", -1), raw("2024-01-01", 2)]),
        Err(MalformedDetail::NotADay)
    );
    assert_eq!(calendar.len(), 2);
}

#[test]
fn keeps_the_largest_count() {
    let mut calendar = ContributionCalendar::new();
    calendar.merge(&vec![raw("2024-01-01", i64::MAX)]).unwrap();
    assert_eq!(calendar.get(0), Some(entry(2024, 1, 1, i64::MAX as u64)));
}

#[test]
fn merged_calendar_is_strictly_ascending() {
    let mut calendar = ContributionCalendar::new();
    calendar
        .merge(&vec![raw("2023-12-30", 1), raw("2023-12-31", 2), raw("2024-01-01", 3)])
        .unwrap();
    calendar.merge(&vec![raw("2024-02-29", 4)]).unwrap();
    let days = calendar.days();
    for i in 1..days.len() {
        assert!(days[i - 1].date.is_before(&days[i].date));
        assert_ne!(days[i - 1].date, days[i].date);
    }
}
