use overwatch::form::{MyApp, StartError};
use overwatch::naming::LocalTime;

fn started() -> LocalTime {
    LocalTime::new(2024, 1, 2, 3, 4, 5).unwrap()
}

#[test]
fn a_new_form_is_empty_and_dark() {
    let app = MyApp::new();
    assert_eq!(app.interval_hours, 0);
    assert_eq!(app.interval_minutes, 0);
    assert_eq!(app.interval_seconds, 0);
    assert_eq!(app.duration_hours, 0);
    assert_eq!(app.duration_minutes, 0);
    assert_eq!(app.duration_seconds, 0);
    assert!(!app.is_running);
    assert!(!app.use_custom_name);
    assert_eq!(app.custom_name, "");
    assert_eq!(app.screenshot_counter, 0);
    assert_eq!(app.total_screenshots, 0);
    assert!(app.dark_mode);
}

#[test]
fn the_theme_toggles_back_and_forth() {
    let mut app = MyApp::new();
    app.interval_seconds = 4;
    app.toggle_theme();
    assert!(!app.dark_mode);
    app.toggle_theme();
    assert!(app.dark_mode);
    assert_eq!(app.interval_seconds, 4);
    assert!(!app.is_running);
}

#[test]
fn start_configures_the_session_from_the_form() {
    let mut app = MyApp::new();
    app.interval_minutes = 1;
    app.interval_seconds = 30;
    app.duration_hours = 1;
    app.use_custom_name = true;
    app.custom_name = String::from("desk");
    app.screenshot_counter = 17;
    let config = app.start_session(&started()).unwrap();
    assert_eq!(config.interval_seconds(), 90);
    assert_eq!(config.total_seconds(), 3600);
    assert_eq!(config.expected_event_count(), 40);
    assert_eq!(config.naming_seed(), "desk");
    assert!(app.is_running);
    assert_eq!(app.screenshot_counter, 0);
    assert_eq!(app.total_screenshots, 40);
    assert_eq!(app.interval_minutes, 1);
    assert_eq!(app.interval_seconds, 30);
    assert_eq!(app.duration_hours, 1);
    assert_eq!(app.custom_name, "desk");
    assert!(app.use_custom_name);
    assert!(app.dark_mode);
}

#[test]
fn start_without_a_custom_name_stamps_the_session() {
    let mut app = MyApp::new();
    app.interval_seconds = 2;
    app.duration_seconds = 5;
    app.custom_name = String::from("ignored");
    let config = app.start_session(&started()).unwrap();
    assert_eq!(config.naming_seed(), "20240102_030405");
    assert_eq!(config.expected_event_count(), 2);
    assert_eq!(app.total_screenshots, 2);
    assert!(app.is_running);
}

#[test]
fn start_with_a_zero_interval_starts_nothing() {
    let mut app = MyApp::new();
    app.duration_minutes = 10;
    app.screenshot_counter = 5;
    app.total_screenshots = 9;
    let refused = app.start_session(&started());
    assert_eq!(refused.unwrap_err(), StartError::InvalidConfiguration);
    assert!(!app.is_running);
    assert_eq!(app.screenshot_counter, 5);
    assert_eq!(app.total_screenshots, 9);
    assert_eq!(app.duration_minutes, 10);
}

#[test]
fn a_second_start_is_ignored() {
    let mut app = MyApp::new();
    app.interval_seconds = 1;
    app.duration_seconds = 3;
    app.start_session(&started()).unwrap();
    app.screenshot_counter = 2;
    app.interval_seconds = 0;
    let second = app.start_session(&started());
    assert_eq!(second.unwrap_err(), StartError::AlreadyRunning);
    assert!(app.is_running);
    assert_eq!(app.screenshot_counter, 2);
    assert_eq!(app.total_screenshots, 3);
}

#[test]
fn start_accepts_the_widest_entries() {
    let mut app = MyApp::new();
    app.interval_hours = u64::MAX;
    app.interval_minutes = u64::MAX;
    app.interval_seconds = u64::MAX;
    app.duration_hours = u64::MAX;
    app.duration_minutes = u64::MAX;
    app.duration_seconds = u64::MAX;
    let config = app.start_session(&started()).unwrap();
    assert_eq!(config.interval_seconds(), (u64::MAX as u128) * 3661);
    assert_eq!(config.expected_event_count(), 1);
    assert_eq!(app.total_screenshots, 1);
}

#[test]
fn start_with_an_empty_custom_name_stamps_the_session() {
    let mut app = MyApp::new();
    app.interval_seconds = 1;
    app.duration_seconds = 1;
    app.use_custom_name = true;
    let config = app
        .start_session(&LocalTime::new(1999, 12, 31, 23, 59, 59).unwrap())
        .unwrap();
    assert_eq!(config.naming_seed(), "19991231_235959");
}
