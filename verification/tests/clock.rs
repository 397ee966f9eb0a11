use overwatch::clock::ClockReading;

fn reading(seconds: i64, nanos: u32) -> ClockReading {
    ClockReading { seconds, nanos }
}

#[test]
fn nanos_between_two_readings() {
    assert_eq!(reading(10, 5).nanos_since(&reading(8, 7)), 1_999_999_998);
    assert_eq!(reading(10, 7).nanos_since(&reading(10, 5)), 2);
    assert_eq!(reading(11, 0).nanos_since(&reading(10, 999_999_999)), 1);
    assert_eq!(reading(3, 0).nanos_since(&reading(0, 0)), 3_000_000_000);
}

#[test]
fn no_time_passes_between_equal_readings() {
    assert_eq!(reading(10, 5).nanos_since(&reading(10, 5)), 0);
}

#[test]
fn a_clock_set_back_counts_as_no_time() {
    assert_eq!(reading(8, 7).nanos_since(&reading(10, 5)), 0);
    assert_eq!(reading(10, 4).nanos_since(&reading(10, 5)), 0);
    assert_eq!(reading(-1, 0).nanos_since(&reading(0, 0)), 0);
}

#[test]
fn readings_before_the_epoch_are_measured() {
    assert_eq!(reading(0, 0).nanos_since(&reading(-1, 0)), 1_000_000_000);
    assert_eq!(
        reading(-1, 500_000_000).nanos_since(&reading(-2, 750_000_000)),
        750_000_000
    );
}

#[test]
fn the_widest_readings_are_measured() {
    let earliest = reading(i64::MIN, 0);
    let latest = reading(i64::MAX, 1_999_999_999);
    let expected = (u64::MAX as u128) * 1_000_000_000 + 1_999_999_999;
    assert_eq!(latest.nanos_since(&earliest), expected);
    assert_eq!(earliest.nanos_since(&latest), 0);
}

#[test]
fn a_leap_second_runs_into_the_next_second() {
    assert_eq!(
        reading(10, 1_500_000_000).nanos_since(&reading(10, 0)),
        1_500_000_000
    );
    assert_eq!(reading(11, 500_000_000).nanos_since(&reading(10, 1_500_000_000)), 0);
}

#[test]
fn the_time_between_two_readings_is_what_chrono_measures() {
    let starts = [(0i64, 0u32), (1_700_000_000, 999_999_999), (-5, 250_000_000)];
    let ends = [(0i64, 1u32), (1_700_000_123, 5), (86_400, 0), (-4, 0)];
    for (start_seconds, start_nanos) in starts {
        for (end_seconds, end_nanos) in ends {
            let start = chrono::DateTime::from_timestamp(start_seconds, start_nanos).unwrap();
            let end = chrono::DateTime::from_timestamp(end_seconds, end_nanos).unwrap();
            let measured = (end - start).num_nanoseconds().unwrap();
            let expected = if measured > 0 { measured as u128 } else { 0 };
            assert_eq!(
                reading(end.timestamp(), end.timestamp_subsec_nanos())
                    .nanos_since(&reading(start.timestamp(), start.timestamp_subsec_nanos())),
                expected
            );
        }
    }
}
