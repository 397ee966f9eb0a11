use overwatch::naming::{
    choose_seed, folder_stamp, frame_file_name, naming_seed, session_folder_name, session_stamp,
    LocalTime,
};

fn time(year: i32, month: u32, day: u32, hour: u32, minute: u32, second: u32) -> LocalTime {
    LocalTime::new(year, month, day, hour, minute, second).unwrap()
}

/// What chrono writes for the same time after `pattern`.
fn chrono_text(
    year: i32,
    month: u32,
    day: u32,
    hour: u32,
    minute: u32,
    second: u32,
    pattern: &str,
) -> String {
    chrono::NaiveDate::from_ymd_opt(year, month, day)
        .unwrap()
        .and_hms_opt(hour, minute, second)
        .unwrap()
        .format(pattern)
        .to_string()
}

#[test]
fn custom_name_is_the_seed_when_asked_for_and_given() {
    assert_eq!(choose_seed(true, "desk", String::from("stamp")), "desk");
}

#[test]
fn fallback_is_the_seed_when_no_name_is_wanted() {
    assert_eq!(choose_seed(false, "desk", String::from("stamp")), "stamp");
}

#[test]
fn fallback_is_the_seed_when_the_name_is_empty() {
    assert_eq!(choose_seed(true, "", String::from("stamp")), "stamp");
    assert_eq!(choose_seed(false, "", String::from("stamp")), "stamp");
}

#[test]
fn naming_seed_prefers_the_custom_name() {
    let started = time(2024, 1, 2, 3, 4, 5);
    assert_eq!(naming_seed(true, "desk", &started), "desk");
    assert_eq!(naming_seed(true, "%Y%m%d_%H%M%S", &started), "%Y%m%d_%H%M%S");
}

#[test]
fn naming_seed_falls_back_to_the_stamp_of_the_start() {
    let started = time(2024, 1, 2, 3, 4, 5);
    assert_eq!(naming_seed(false, "desk", &started), "20240102_030405");
    assert_eq!(naming_seed(true, "", &started), "20240102_030405");
    assert_eq!(naming_seed(false, "", &started), "20240102_030405");
}

#[test]
fn naming_seed_is_never_empty() {
    for use_custom_name in [false, true] {
        for custom_name in ["", "a", "desk"] {
            let seed = naming_seed(use_custom_name, custom_name, &time(0, 1, 1, 0, 0, 0));
            assert!(!seed.is_empty());
        }
    }
}

#[test]
fn session_stamp_is_a_date_and_a_time() {
    assert_eq!(session_stamp(&time(2024, 1, 31, 23, 59, 59)), "20240131_235959");
    assert_eq!(session_stamp(&time(2024, 1, 2, 3, 4, 5)), "20240102_030405");
    assert_eq!(session_stamp(&time(1970, 1, 1, 0, 0, 0)), "19700101_000000");
    assert_eq!(session_stamp(&time(9999, 12, 31, 23, 59, 59)), "99991231_235959");
}

#[test]
fn session_stamp_pads_early_years_with_zeros() {
    assert_eq!(session_stamp(&time(0, 1, 1, 0, 0, 0)), "00000101_000000");
    assert_eq!(session_stamp(&time(7, 8, 9, 10, 11, 12)), "00070809_101112");
    assert_eq!(session_stamp(&time(999, 12, 31, 0, 0, 0)), "09991231_000000");
}

#[test]
fn session_stamp_signs_years_beyond_four_digits() {
    assert_eq!(session_stamp(&time(10000, 1, 1, 0, 0, 0)), "+100000101_000000");
    assert_eq!(session_stamp(&time(262143, 12, 31, 23, 59, 59)), "+2621431231_235959");
    assert_eq!(session_stamp(&time(-1, 1, 1, 0, 0, 0)), "-00010101_000000");
    assert_eq!(session_stamp(&time(-9999, 1, 1, 0, 0, 0)), "-99990101_000000");
    assert_eq!(session_stamp(&time(-10000, 1, 1, 0, 0, 0)), "-100000101_000000");
    assert_eq!(session_stamp(&time(-262144, 1, 1, 0, 0, 0)), "-2621440101_000000");
}

#[test]
fn session_stamp_writes_a_leap_second() {
    assert_eq!(session_stamp(&time(2016, 12, 31, 23, 59, 60)), "20161231_235960");
}

#[test]
fn folder_stamp_is_a_time_of_day() {
    assert_eq!(folder_stamp(&time(2024, 1, 31, 23, 59, 59)), "235959");
    assert_eq!(folder_stamp(&time(2024, 1, 31, 0, 0, 0)), "000000");
    assert_eq!(folder_stamp(&time(-5, 6, 7, 8, 9, 10)), "080910");
    assert_eq!(folder_stamp(&time(2016, 12, 31, 23, 59, 60)), "235960");
}

#[test]
fn stamps_are_what_chrono_writes() {
    let years = [
        -262143, -100000, -10000, -9999, -1000, -999, -1, 0, 1, 9, 10, 99, 100, 999, 1000, 1969,
        1970, 2000, 2024, 9999, 10000, 99999, 100000, 262142,
    ];
    let days = [(1u32, 1u32), (2, 28), (6, 9), (10, 10), (11, 30), (12, 31)];
    let times = [(0u32, 0u32, 0u32), (3, 4, 5), (9, 59, 10), (12, 0, 59), (23, 59, 59)];
    for year in years {
        for (month, day) in days {
            for (hour, minute, second) in times {
                let local = time(year, month, day, hour, minute, second);
                assert_eq!(
                    session_stamp(&local),
                    chrono_text(year, month, day, hour, minute, second, "%Y%m%d_%H%M%S")
                );
                assert_eq!(
                    folder_stamp(&local),
                    chrono_text(year, month, day, hour, minute, second, "%H%M%S")
                );
            }
        }
    }
}

#[test]
fn every_time_of_day_is_what_chrono_writes() {
    for hour in 0..24 {
        for minute in 0..60 {
            for second in [0u32, 1, 9, 10, 30, 59] {
                assert_eq!(
                    folder_stamp(&time(2024, 2, 29, hour, minute, second)),
                    chrono_text(2024, 2, 29, hour, minute, second, "%H%M%S")
                );
            }
        }
    }
}

#[test]
fn a_local_time_keeps_to_the_calendar() {
    assert!(LocalTime::new(2024, 1, 1, 0, 0, 0).is_some());
    assert!(LocalTime::new(2024, 12, 31, 23, 59, 60).is_some());
    assert!(LocalTime::new(-262144, 1, 1, 0, 0, 0).is_some());
    assert!(LocalTime::new(262143, 1, 1, 0, 0, 0).is_some());
    assert!(LocalTime::new(-262145, 1, 1, 0, 0, 0).is_none());
    assert!(LocalTime::new(262144, 1, 1, 0, 0, 0).is_none());
    assert!(LocalTime::new(2024, 0, 1, 0, 0, 0).is_none());
    assert!(LocalTime::new(2024, 13, 1, 0, 0, 0).is_none());
    assert!(LocalTime::new(2024, 1, 0, 0, 0, 0).is_none());
    assert!(LocalTime::new(2024, 1, 32, 0, 0, 0).is_none());
    assert!(LocalTime::new(2024, 1, 1, 24, 0, 0).is_none());
    assert!(LocalTime::new(2024, 1, 1, 0, 60, 0).is_none());
    assert!(LocalTime::new(2024, 1, 1, 0, 0, 61).is_none());
    assert!(LocalTime::new(i32::MIN, u32::MAX, u32::MAX, u32::MAX, u32::MAX, u32::MAX).is_none());
}

#[test]
fn folder_name_joins_seed_and_stamp() {
    assert_eq!(session_folder_name("desk", "235959"), "desk_235959");
    assert_eq!(
        session_folder_name("20240131_101500", "101500"),
        "20240131_101500_101500"
    );
    assert_eq!(session_folder_name("", ""), "_");
}

#[test]
fn file_name_joins_target_stamp_and_extension() {
    assert_eq!(
        frame_file_name("DP-1", "20240131_101500"),
        "DP-1_20240131_101500.png"
    );
    assert_eq!(frame_file_name("", ""), "_.png");
    assert_eq!(frame_file_name("écran 2", "t"), "écran 2_t.png");
}

#[test]
fn two_sessions_with_one_seed_still_get_names() {
    let first = session_folder_name("desk", "101500");
    let second = session_folder_name("desk", "101500");
    assert_eq!(first, second);
}
