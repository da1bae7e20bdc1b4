use hestia::dates::{days_in_month, get_word_date, is_leap_year, Date};

#[test]
fn leap_year_rules() {
    assert!(is_leap_year(2024));
    assert!(!is_leap_year(2023));
    assert!(!is_leap_year(1900));
    assert!(is_leap_year(2000));
}

#[test]
fn month_lengths() {
    assert_eq!(days_in_month(2023, 2), 28);
    assert_eq!(days_in_month(2024, 2), 29);
    assert_eq!(days_in_month(2024, 4), 30);
    assert_eq!(days_in_month(2024, 12), 31);
}

#[test]
fn from_ymd_validates() {
    assert!(Date::from_ymd(2024, 2, 29).is_some());
    assert!(Date::from_ymd(2023, 2, 29).is_none());
    assert!(Date::from_ymd(2024, 13, 1).is_none());
    assert!(Date::from_ymd(2024, 0, 1).is_none());
    assert!(Date::from_ymd(2024, 6, 31).is_none());
    assert!(Date::from_ymd(2024, 6, 0).is_none());
    let d = Date::from_ymd(2024, 3, 1).unwrap();
    assert_eq!(d.year, 2024);
    assert_eq!(d.month, 3);
    assert_eq!(d.day, 1);
}

#[test]
fn parse_iso_accepts_well_formed_dates() {
    let d = Date::parse_iso("2024-03-10").unwrap();
    assert_eq!((d.year, d.month, d.day), (2024, 3, 10));
    let d = Date::parse_iso("2000-02-29").unwrap();
    assert_eq!((d.year, d.month, d.day), (2000, 2, 29));
}

#[test]
fn parse_iso_rejects_malformed_text() {
    assert!(Date::parse_iso("2024-3-10").is_none());
    assert!(Date::parse_iso("2024-03-10T00:00").is_none());
    assert!(Date::parse_iso("2023-02-29").is_none());
    assert!(Date::parse_iso("2024-00-10").is_none());
    assert!(Date::parse_iso("not a date").is_none());
    assert!(Date::parse_iso("").is_none());
    assert!(Date::parse_iso("2024/03/10").is_none());
}

#[test]
fn iso_rendering_round_trips() {
    let d = Date::from_ymd(2024, 3, 1).unwrap();
    assert_eq!(d.to_iso_string(), "2024-03-01");
    let d2 = Date::parse_iso(d.to_iso_string().as_str()).unwrap();
    assert_eq!(d2, d);
    let early = Date::from_ymd(33, 12, 25).unwrap();
    assert_eq!(early.to_iso_string(), "0033-12-25");
}

#[test]
fn word_dates_for_file_names() {
    let d = Date::from_ymd(2024, 3, 1).unwrap();
    assert_eq!(get_word_date(d), "March.2024");
    let d = Date::from_ymd(1999, 12, 31).unwrap();
    assert_eq!(get_word_date(d), "December.1999");
}
