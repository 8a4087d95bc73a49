use doing_nothing::time_format::format_time;

#[test]
fn zero_seconds() {
    assert_eq!(format_time(0), "0 seconds");
}

#[test]
fn one_second() {
    assert_eq!(format_time(1), "1 second");
}

#[test]
fn fifty_nine_seconds() {
    assert_eq!(format_time(59), "59 seconds");
}

#[test]
fn one_minute() {
    assert_eq!(format_time(60), "1 minute");
}

#[test]
fn one_hour() {
    assert_eq!(format_time(3600), "1 hour");
}

#[test]
fn one_day() {
    assert_eq!(format_time(86400), "1 day");
}

#[test]
fn minutes_do_not_carry() {
    // 61 and 119 seconds both truncate to a single minute.
    assert_eq!(format_time(61), "1 minute");
    assert_eq!(format_time(119), "1 minute");
    assert_eq!(format_time(120), "2 minutes");
}

#[test]
fn ninety_minutes_read_as_one_hour() {
    // The threshold is checked against the raw total: 5400 s / 3600 = 1.
    assert_eq!(format_time(5400), "1 hour");
}

#[test]
fn largest_unit_wins() {
    assert_eq!(format_time(3599), "59 minutes");
    assert_eq!(format_time(7200), "2 hours");
    assert_eq!(format_time(86399), "23 hours");
    assert_eq!(format_time(90061), "1 day");
    assert_eq!(format_time(172800), "2 days");
}

#[test]
fn many_digits() {
    assert_eq!(format_time(864000), "10 days");
    assert_eq!(format_time(u64::MAX), "213503982334601 days");
}
