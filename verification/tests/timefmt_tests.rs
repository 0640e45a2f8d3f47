use dojima_bot::format_durationu;

#[test]
fn zero_seconds_renders_all_zeros() {
    assert_eq!(format_durationu(0), "00:00:00");
}

#[test]
fn seconds_and_minutes_are_zero_padded() {
    assert_eq!(format_durationu(59), "00:00:59");
    assert_eq!(format_durationu(60), "00:01:00");
    assert_eq!(format_durationu(61), "00:01:01");
    assert_eq!(format_durationu(3599), "00:59:59");
}

#[test]
fn hours_roll_over_at_3600() {
    assert_eq!(format_durationu(3600), "01:00:00");
    assert_eq!(format_durationu(3661), "01:01:01");
    assert_eq!(format_durationu(86399), "23:59:59");
}

#[test]
fn hours_keep_growing_past_a_day() {
    assert_eq!(format_durationu(359999), "99:59:59");
    assert_eq!(format_durationu(360000), "100:00:00");
}
