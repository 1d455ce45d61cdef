use dilbert_feed::Date;
use dilbert_feed::FeedError;

#[test]
fn test_iso_format() {
    let d = Date::new(2018, 10, 1).unwrap();
    assert_eq!(d.iso(), "2018-10-01");
    let d = Date::new(2000, 1, 1).unwrap();
    assert_eq!(d.iso(), "2000-01-01");
    let d = Date::new(999, 12, 31).unwrap();
    assert_eq!(d.iso(), "0999-12-31");
}

#[test]
fn test_new_rejects_invalid_dates() {
    assert_eq!(Date::new(2018, 2, 30), Err(FeedError::InvalidDate));
    assert_eq!(Date::new(2018, 13, 1), Err(FeedError::InvalidDate));
    assert_eq!(Date::new(2018, 0, 1), Err(FeedError::InvalidDate));
    assert_eq!(Date::new(2018, 4, 31), Err(FeedError::InvalidDate));
    assert_eq!(Date::new(0, 1, 1), Err(FeedError::InvalidDate));
    assert_eq!(Date::new(10000, 1, 1), Err(FeedError::InvalidDate));
}

#[test]
fn test_leap_years() {
    assert!(Date::new(2020, 2, 29).is_ok());
    assert!(Date::new(2000, 2, 29).is_ok());
    assert_eq!(Date::new(1900, 2, 29), Err(FeedError::InvalidDate));
    assert_eq!(Date::new(2019, 2, 29), Err(FeedError::InvalidDate));
}

#[test]
fn test_prev_day() {
    let d = Date::new(2018, 10, 1).unwrap();
    assert_eq!(d.prev_day(), Date::new(2018, 9, 30).unwrap());
    let d = Date::new(2018, 1, 1).unwrap();
    assert_eq!(d.prev_day(), Date::new(2017, 12, 31).unwrap());
    let d = Date::new(2020, 3, 1).unwrap();
    assert_eq!(d.prev_day(), Date::new(2020, 2, 29).unwrap());
    let d = Date::new(2019, 3, 1).unwrap();
    assert_eq!(d.prev_day(), Date::new(2019, 2, 28).unwrap());
}

#[test]
fn test_weekday() {
    // 2018-10-01 was a Monday, 2000-01-01 a Saturday.
    assert_eq!(Date::new(2018, 10, 1).unwrap().weekday(), 1);
    assert_eq!(Date::new(2000, 1, 1).unwrap().weekday(), 6);
}

#[test]
fn test_rfc2822_format() {
    let d = Date::new(2018, 10, 1).unwrap();
    assert_eq!(d.rfc2822_midnight_utc(), "Mon, 1 Oct 2018 00:00:00 +0000");
    let d = Date::new(2018, 10, 30).unwrap();
    assert_eq!(d.rfc2822_midnight_utc(), "Tue, 30 Oct 2018 00:00:00 +0000");
    let d = Date::new(2000, 1, 1).unwrap();
    assert_eq!(d.rfc2822_midnight_utc(), "Sat, 1 Jan 2000 00:00:00 +0000");
}

#[test]
fn test_formats_match_chrono() {
    let days = vec![
        (2018, 10, 1),
        (2018, 10, 30),
        (2000, 1, 1),
        (2000, 2, 29),
        (1999, 12, 31),
        (2019, 11, 2),
        (2020, 11, 11),
        (2021, 10, 10),
        (1970, 1, 1),
        (999, 3, 7),
    ];
    for (y, m, d) in days {
        let date = Date::new(y, m, d).unwrap();
        let reference = chrono::NaiveDate::from_ymd_opt(y as i32, m, d).unwrap();
        assert_eq!(date.iso(), format!("{}", reference.format("%Y-%m-%d")));
        let midnight = reference.and_hms_opt(0, 0, 0).unwrap().and_utc();
        assert_eq!(date.rfc2822_midnight_utc(), midnight.to_rfc2822());
    }
}
