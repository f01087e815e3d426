use mest_net::restaurant::Schedule::{Regular, WithWeekends};
use mest_net::restaurant::WorkingTime;
use mest_net::time::{CivilDateTime, Time};

#[test]
fn regular_schedule_one_day_match_in() {
    let start_time = Time::from_hms_milli_opt(8, 0, 0, 0).unwrap();
    let end_time = Time::from_hms_milli_opt(23, 0, 0, 0).unwrap();
    let working_time = WorkingTime {
        start_time,
        end_time,
    };
    let schedule = Regular { working_time };

    let current_date_time: CivilDateTime =
        CivilDateTime::from_ymd_and_hms(2024, 1, 1, 9, 0, 0).unwrap();

    assert_eq!(true, schedule.match_in(current_date_time))
}

#[test]
fn regular_schedule_one_day_not_match_in() {
    let start_time = Time::from_hms_milli_opt(8, 0, 0, 0).unwrap();
    let end_time = Time::from_hms_milli_opt(23, 0, 0, 0).unwrap();
    let working_time = WorkingTime {
        start_time,
        end_time,
    };
    let schedule = Regular { working_time };

    let current_date_time: CivilDateTime =
        CivilDateTime::from_ymd_and_hms(2024, 1, 1, 23, 30, 0).unwrap();

    assert_eq!(false, schedule.match_in(current_date_time))
}

#[test]
fn regular_schedule_two_days_match_in() {
    let start_time = Time::from_hms_milli_opt(8, 0, 0, 0).unwrap();
    let end_time = Time::from_hms_milli_opt(3, 0, 0, 0).unwrap();
    let working_time = WorkingTime {
        start_time,
        end_time,
    };
    let schedule = Regular { working_time };

    let current_date_time: CivilDateTime =
        CivilDateTime::from_ymd_and_hms(2024, 1, 1, 2, 0, 0).unwrap();

    assert_eq!(true, schedule.match_in(current_date_time))
}

#[test]
fn regular_schedule_two_days_not_match_in() {
    let start_time = Time::from_hms_milli_opt(8, 0, 0, 0).unwrap();
    let end_time = Time::from_hms_milli_opt(3, 0, 0, 0).unwrap();
    let working_time = WorkingTime {
        start_time,
        end_time,
    };
    let schedule = Regular { working_time };

    let current_date_time: CivilDateTime =
        CivilDateTime::from_ymd_and_hms(2024, 1, 1, 4, 0, 0).unwrap();

    assert_eq!(false, schedule.match_in(current_date_time))
}

#[test]
fn with_weekends_schedule_weekday_match_in() {
    let weekday_start_time = Time::from_hms_milli_opt(8, 0, 0, 0).unwrap();
    let weekday_end_time = Time::from_hms_milli_opt(1, 0, 0, 0).unwrap();
    let weekday_working_time = WorkingTime {
        start_time: weekday_start_time,
        end_time: weekday_end_time,
    };

    let weekend_start_time = Time::from_hms_milli_opt(12, 0, 0, 0).unwrap();
    let weekend_end_time = Time::from_hms_milli_opt(6, 0, 0, 0).unwrap();
    let weekend_working_time = WorkingTime {
        start_time: weekend_start_time,
        end_time: weekend_end_time,
    };

    let schedule = WithWeekends {
        weekday_working_time,
        weekend_working_time,
    };

    let current_date_time: CivilDateTime =
        CivilDateTime::from_ymd_and_hms(2024, 1, 10, 16, 0, 0).unwrap();

    assert_eq!(true, schedule.match_in(current_date_time))
}

#[test]
fn with_weekends_schedule_weekday_not_match_in() {
    let weekday_start_time = Time::from_hms_milli_opt(8, 0, 0, 0).unwrap();
    let weekday_end_time = Time::from_hms_milli_opt(1, 0, 0, 0).unwrap();
    let weekday_working_time = WorkingTime {
        start_time: weekday_start_time,
        end_time: weekday_end_time,
    };

    let weekend_start_time = Time::from_hms_milli_opt(12, 0, 0, 0).unwrap();
    let weekend_end_time = Time::from_hms_milli_opt(6, 0, 0, 0).unwrap();
    let weekend_working_time = WorkingTime {
        start_time: weekend_start_time,
        end_time: weekend_end_time,
    };

    let schedule = WithWeekends {
        weekday_working_time,
        weekend_working_time,
    };

    let current_date_time: CivilDateTime =
        CivilDateTime::from_ymd_and_hms(2024, 1, 10, 2, 0, 0).unwrap();

    assert_eq!(false, schedule.match_in(current_date_time))
}

#[test]
fn with_weekends_schedule_friday_as_weekday_match_in() {
    let weekday_start_time = Time::from_hms_milli_opt(8, 0, 0, 0).unwrap();
    let weekday_end_time = Time::from_hms_milli_opt(1, 0, 0, 0).unwrap();
    let weekday_working_time = WorkingTime {
        start_time: weekday_start_time,
        end_time: weekday_end_time,
    };

    let weekend_start_time = Time::from_hms_milli_opt(12, 0, 0, 0).unwrap();
    let weekend_end_time = Time::from_hms_milli_opt(6, 0, 0, 0).unwrap();
    let weekend_working_time = WorkingTime {
        start_time: weekend_start_time,
        end_time: weekend_end_time,
    };

    let schedule = WithWeekends {
        weekday_working_time,
        weekend_working_time,
    };

    let current_date_time: CivilDateTime =
        CivilDateTime::from_ymd_and_hms(2024, 1, 12, 0, 30, 0).unwrap();

    assert_eq!(true, schedule.match_in(current_date_time))
}

#[test]
fn with_weekends_schedule_friday_as_weekday_not_match_in() {
    let weekday_start_time = Time::from_hms_milli_opt(8, 0, 0, 0).unwrap();
    let weekday_end_time = Time::from_hms_milli_opt(1, 0, 0, 0).unwrap();
    let weekday_working_time = WorkingTime {
        start_time: weekday_start_time,
        end_time: weekday_end_time,
    };

    let weekend_start_time = Time::from_hms_milli_opt(12, 0, 0, 0).unwrap();
    let weekend_end_time = Time::from_hms_milli_opt(6, 0, 0, 0).unwrap();
    let weekend_working_time = WorkingTime {
        start_time: weekend_start_time,
        end_time: weekend_end_time,
    };

    let schedule = WithWeekends {
        weekday_working_time,
        weekend_working_time,
    };

    let current_date_time: CivilDateTime =
        CivilDateTime::from_ymd_and_hms(2024, 1, 12, 1, 30, 0).unwrap();

    assert_eq!(false, schedule.match_in(current_date_time))
}

#[test]
fn with_weekends_schedule_friday_as_weekend_match_in() {
    let weekday_start_time = Time::from_hms_milli_opt(8, 0, 0, 0).unwrap();
    let weekday_end_time = Time::from_hms_milli_opt(1, 0, 0, 0).unwrap();
    let weekday_working_time = WorkingTime {
        start_time: weekday_start_time,
        end_time: weekday_end_time,
    };

    let weekend_start_time = Time::from_hms_milli_opt(12, 0, 0, 0).unwrap();
    let weekend_end_time = Time::from_hms_milli_opt(6, 0, 0, 0).unwrap();
    let weekend_working_time = WorkingTime {
        start_time: weekend_start_time,
        end_time: weekend_end_time,
    };

    let schedule = WithWeekends {
        weekday_working_time,
        weekend_working_time,
    };

    let current_date_time: CivilDateTime =
        CivilDateTime::from_ymd_and_hms(2024, 1, 12, 16, 30, 0).unwrap();

    assert_eq!(true, schedule.match_in(current_date_time))
}

#[test]
fn with_weekends_schedule_saturday_match_in() {
    let weekday_start_time = Time::from_hms_milli_opt(8, 0, 0, 0).unwrap();
    let weekday_end_time = Time::from_hms_milli_opt(1, 0, 0, 0).unwrap();
    let weekday_working_time = WorkingTime {
        start_time: weekday_start_time,
        end_time: weekday_end_time,
    };

    let weekend_start_time = Time::from_hms_milli_opt(12, 0, 0, 0).unwrap();
    let weekend_end_time = Time::from_hms_milli_opt(6, 0, 0, 0).unwrap();
    let weekend_working_time = WorkingTime {
        start_time: weekend_start_time,
        end_time: weekend_end_time,
    };

    let schedule = WithWeekends {
        weekday_working_time,
        weekend_working_time,
    };

    let current_date_time: CivilDateTime =
        CivilDateTime::from_ymd_and_hms(2024, 1, 13, 5, 30, 0).unwrap();

    assert_eq!(true, schedule.match_in(current_date_time))
}

#[test]
fn with_weekends_schedule_saturday_not_match_in() {
    let weekday_start_time = Time::from_hms_milli_opt(8, 0, 0, 0).unwrap();
    let weekday_end_time = Time::from_hms_milli_opt(1, 0, 0, 0).unwrap();
    let weekday_working_time = WorkingTime {
        start_time: weekday_start_time,
        end_time: weekday_end_time,
    };

    let weekend_start_time = Time::from_hms_milli_opt(12, 0, 0, 0).unwrap();
    let weekend_end_time = Time::from_hms_milli_opt(6, 0, 0, 0).unwrap();
    let weekend_working_time = WorkingTime {
        start_time: weekend_start_time,
        end_time: weekend_end_time,
    };

    let schedule = WithWeekends {
        weekday_working_time,
        weekend_working_time,
    };

    let current_date_time: CivilDateTime =
        CivilDateTime::from_ymd_and_hms(2024, 1, 13, 6, 30, 0).unwrap();

    assert_eq!(false, schedule.match_in(current_date_time))
}

#[test]
fn with_weekends_schedule_sunday_as_weekend_match_in() {
    let weekday_start_time = Time::from_hms_milli_opt(8, 0, 0, 0).unwrap();
    let weekday_end_time = Time::from_hms_milli_opt(1, 0, 0, 0).unwrap();
    let weekday_working_time = WorkingTime {
        start_time: weekday_start_time,
        end_time: weekday_end_time,
    };

    let weekend_start_time = Time::from_hms_milli_opt(12, 0, 0, 0).unwrap();
    let weekend_end_time = Time::from_hms_milli_opt(6, 0, 0, 0).unwrap();
    let weekend_working_time = WorkingTime {
        start_time: weekend_start_time,
        end_time: weekend_end_time,
    };

    let schedule = WithWeekends {
        weekday_working_time,
        weekend_working_time,
    };

    let current_date_time: CivilDateTime =
        CivilDateTime::from_ymd_and_hms(2024, 1, 14, 5, 30, 0).unwrap();

    assert_eq!(true, schedule.match_in(current_date_time))
}

#[test]
fn with_weekends_schedule_sunday_as_weekend_not_match_in() {
    let weekday_start_time = Time::from_hms_milli_opt(8, 0, 0, 0).unwrap();
    let weekday_end_time = Time::from_hms_milli_opt(1, 0, 0, 0).unwrap();
    let weekday_working_time = WorkingTime {
        start_time: weekday_start_time,
        end_time: weekday_end_time,
    };

    let weekend_start_time = Time::from_hms_milli_opt(12, 0, 0, 0).unwrap();
    let weekend_end_time = Time::from_hms_milli_opt(6, 0, 0, 0).unwrap();
    let weekend_working_time = WorkingTime {
        start_time: weekend_start_time,
        end_time: weekend_end_time,
    };

    let schedule = WithWeekends {
        weekday_working_time,
        weekend_working_time,
    };

    let current_date_time: CivilDateTime =
        CivilDateTime::from_ymd_and_hms(2024, 1, 14, 6, 30, 0).unwrap();

    assert_eq!(false, schedule.match_in(current_date_time))
}

#[test]
fn with_weekends_schedule_sunday_as_weekday_match_in() {
    let weekday_start_time = Time::from_hms_milli_opt(8, 0, 0, 0).unwrap();
    let weekday_end_time = Time::from_hms_milli_opt(1, 0, 0, 0).unwrap();
    let weekday_working_time = WorkingTime {
        start_time: weekday_start_time,
        end_time: weekday_end_time,
    };

    let weekend_start_time = Time::from_hms_milli_opt(12, 0, 0, 0).unwrap();
    let weekend_end_time = Time::from_hms_milli_opt(6, 0, 0, 0).unwrap();
    let weekend_working_time = WorkingTime {
        start_time: weekend_start_time,
        end_time: weekend_end_time,
    };

    let schedule = WithWeekends {
        weekday_working_time,
        weekend_working_time,
    };

    let current_date_time: CivilDateTime =
        CivilDateTime::from_ymd_and_hms(2024, 1, 14, 16, 30, 0).unwrap();

    assert_eq!(true, schedule.match_in(current_date_time))
}
