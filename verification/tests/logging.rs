use mouser::logging::{
    backup_extension, days_to_ymd, format_log_line, log_enabled, rotation_renames, should_rotate,
    utc_timestamp, LogLevel, MAX_BYTES,
};

#[test]
fn test_utc_timestamp_format() {
    let secs = std::time::SystemTime::now()
        .duration_since(std::time::UNIX_EPOCH)
        .unwrap_or_default()
        .as_secs();
    let ts = utc_timestamp(secs);
    assert_eq!(ts.len(), 19, "unexpected timestamp length: {}", ts);
    assert_eq!(&ts[4..5], "-");
    assert_eq!(&ts[7..8], "-");
    assert_eq!(&ts[10..11], " ");
}

#[test]
fn test_days_to_ymd_epoch() {
    let (y, m, d) = days_to_ymd(0);
    assert_eq!((y, m, d), (1970, 1, 1));
}

#[test]
fn test_days_to_ymd_known_date() {
    let (y, m, d) = days_to_ymd(19797);
    assert_eq!((y, m, d), (2024, 3, 15));
}

#[test]
fn days_to_ymd_leap_day_and_year_end() {
    assert_eq!(days_to_ymd(11016), (2000, 2, 29));
    assert_eq!(days_to_ymd(10956), (1999, 12, 31));
}

#[test]
fn timestamp_of_known_second() {
    assert_eq!(utc_timestamp(0), "1970-01-01 00:00:00");
    assert_eq!(utc_timestamp(19797 * 86400 + 3 * 3600 + 4 * 60 + 5), "2024-03-15 03:04:05");
}

#[test]
fn log_line_format() {
    assert_eq!(format_log_line("INFO", "2024-03-15 03:04:05", "hi"), "[INFO 2024-03-15 03:04:05] hi\n");
}

#[test]
fn levels_written() {
    assert!(log_enabled(LogLevel::Info, false));
    assert!(!log_enabled(LogLevel::Debug, false));
    assert!(log_enabled(LogLevel::Debug, true));
    assert!(!log_enabled(LogLevel::Trace, true));
    assert!(log_enabled(LogLevel::Error, false));
}

#[test]
fn rotation_policy() {
    assert!(!should_rotate(MAX_BYTES - 1));
    assert!(should_rotate(MAX_BYTES));
    assert_eq!(backup_extension(5), "log.5");
    assert_eq!(rotation_renames(), vec![(4, 5), (3, 4), (2, 3), (1, 2), (0, 1)]);
}
