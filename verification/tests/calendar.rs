use mest_net::parse::{parse_person_number, parse_u8};
use mest_net::time::{CivilDateTime, Time, Weekday};

#[test]
fn weekdays_of_known_dates() {
    let monday = CivilDateTime::from_ymd_and_hms(2024, 1, 1, 0, 0, 0).unwrap();
    assert_eq!(monday.weekday(), Weekday::Mon);
    let wednesday = CivilDateTime::from_ymd_and_hms(2024, 1, 10, 0, 0, 0).unwrap();
    assert_eq!(wednesday.weekday(), Weekday::Wed);
    let friday = CivilDateTime::from_ymd_and_hms(2024, 1, 12, 0, 0, 0).unwrap();
    assert_eq!(friday.weekday(), Weekday::Fri);
    let saturday = CivilDateTime::from_ymd_and_hms(2024, 1, 13, 0, 0, 0).unwrap();
    assert_eq!(saturday.weekday(), Weekday::Sat);
    let sunday = CivilDateTime::from_ymd_and_hms(2024, 1, 14, 0, 0, 0).unwrap();
    assert_eq!(sunday.weekday(), Weekday::Sun);
    let epoch = CivilDateTime::from_ymd_and_hms(1970, 1, 1, 0, 0, 0).unwrap();
    assert_eq!(epoch.weekday(), Weekday::Thu);
}

#[test]
fn leap_years_are_honoured() {
    assert!(CivilDateTime::from_ymd_and_hms(2024, 2, 29, 0, 0, 0).is_some());
    assert!(CivilDateTime::from_ymd_and_hms(2023, 2, 29, 0, 0, 0).is_none());
    assert!(CivilDateTime::from_ymd_and_hms(2000, 2, 29, 0, 0, 0).is_some());
    assert!(CivilDateTime::from_ymd_and_hms(1900, 2, 29, 0, 0, 0).is_none());
    assert!(CivilDateTime::from_ymd_and_hms(2024, 4, 31, 0, 0, 0).is_none());
}

#[test]
fn out_of_range_instants_are_rejected() {
    assert!(Time::from_hms_milli_opt(24, 0, 0, 0).is_none());
    assert!(Time::from_hms_milli_opt(23, 60, 0, 0).is_none());
    assert!(Time::from_hms_milli_opt(23, 59, 60, 0).is_none());
    assert!(CivilDateTime::from_ymd_and_hms(2024, 13, 1, 0, 0, 0).is_none());
    assert!(CivilDateTime::from_ymd_and_hms(2024, 0, 1, 0, 0, 0).is_none());
    assert!(CivilDateTime::from_ymd_and_hms(2024, 1, 1, 24, 0, 0).is_none());
}

#[test]
fn party_size_numerals() {
    assert_eq!(parse_u8(&b"2".to_vec()), Some(2));
    assert_eq!(parse_u8(&b"+3".to_vec()), Some(3));
    assert_eq!(parse_u8(&b"02".to_vec()), Some(2));
    assert_eq!(parse_u8(&b"255".to_vec()), Some(255));
    assert_eq!(parse_u8(&b"256".to_vec()), None);
    assert_eq!(parse_u8(&b"9999".to_vec()), None);
    assert_eq!(parse_u8(&b"".to_vec()), None);
    assert_eq!(parse_u8(&b"+".to_vec()), None);
    assert_eq!(parse_u8(&b"2x".to_vec()), None);
    assert_eq!(parse_u8(&b"-2".to_vec()), None);

    assert_eq!(parse_person_number(&b"1".to_vec()), Some(1));
    assert_eq!(parse_person_number(&b"6".to_vec()), Some(6));
    assert_eq!(parse_person_number(&b"0".to_vec()), None);
    assert_eq!(parse_person_number(&b"7".to_vec()), None);
    assert_eq!(parse_person_number(&b"two".to_vec()), None);
}
