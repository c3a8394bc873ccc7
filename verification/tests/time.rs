use transtypro::time::parse_timestamp;

#[test]
fn parses_iso_and_sqlite_forms() {
    assert_eq!(parse_timestamp("1970-01-01T00:00:00Z"), Some(0));
    assert_eq!(parse_timestamp("2024-01-01T00:00:00Z"), Some(1_704_067_200));
    assert_eq!(parse_timestamp("2024-01-01 00:00:00"), Some(1_704_067_200));
    assert_eq!(parse_timestamp("2024-01-01"), Some(1_704_067_200));
    assert_eq!(parse_timestamp("2024-01-01T01:30"), Some(1_704_072_600));
    assert_eq!(parse_timestamp("2024-01-01T00:00:00.999+00:00"), Some(1_704_067_200));
}

#[test]
fn applies_zone_offsets() {
    assert_eq!(parse_timestamp("2024-01-01T02:00:00+02:00"), Some(1_704_067_200));
    assert_eq!(parse_timestamp("2023-12-31T22:00:00-02:00"), Some(1_704_067_200));
}

#[test]
fn handles_leap_days_and_old_dates() {
    assert_eq!(parse_timestamp("2000-02-29T00:00:00Z"), Some(951_782_400));
    assert_eq!(parse_timestamp("1969-12-31T23:59:59Z"), Some(-1));
}

#[test]
fn rejects_what_is_not_a_date_time() {
    assert_eq!(parse_timestamp("not a date"), None);
    assert_eq!(parse_timestamp("2024-13-01T00:00:00Z"), None);
    assert_eq!(parse_timestamp("2024-01-01T00:00:00Q"), None);
    assert_eq!(parse_timestamp(""), None);
}
