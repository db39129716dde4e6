use driver_test_cli_v2::calendar::{chrono_timestamp, civil_from_days, format_timestamp};

#[test]
fn timestamp_format() {
    let ts = chrono_timestamp();
    // Expected format: YYYYMMDD_HHMMSS (15 chars).
    assert_eq!(ts.len(), 15, "timestamp should be 15 chars: {ts}");
    assert_eq!(&ts[8..9], "_", "separator should be underscore: {ts}");
}

#[test]
fn civil_from_days_epoch() {
    let (y, m, d) = civil_from_days(0);
    assert_eq!((y, m, d), (1970, 1, 1));
}

#[test]
fn civil_from_days_known_date() {
    // 2025-01-01 is day 20089
    let (y, m, d) = civil_from_days(20089);
    assert_eq!((y, m, d), (2025, 1, 1));
}

#[test]
fn civil_from_days_around_leap_days() {
    assert_eq!(civil_from_days(-1), (1969, 12, 31));
    assert_eq!(civil_from_days(11016), (2000, 2, 29));
    assert_eq!(civil_from_days(11017), (2000, 3, 1));
    assert_eq!(civil_from_days(-25509), (1900, 2, 28));
    assert_eq!(civil_from_days(-25508), (1900, 3, 1));
    assert_eq!(civil_from_days(-719468), (0, 3, 1));
    assert_eq!(civil_from_days(-719529), (-1, 12, 31));
}

#[test]
fn civil_from_days_moves_one_day_at_a_time() {
    let mut last = civil_from_days(-200_000);
    for day in -199_999..200_000 {
        let date = civil_from_days(day);
        assert!(date > last, "{last:?} then {date:?}");
        last = date;
    }
}

#[test]
fn timestamps_of_known_moments() {
    assert_eq!(format_timestamp(0), "19700101_000000");
    assert_eq!(format_timestamp(951_827_696), "20000229_123456");
    assert_eq!(format_timestamp(1_735_689_599), "20241231_235959");
    assert_eq!(format_timestamp(1_735_689_600), "20250101_000000");
    assert_eq!(format_timestamp(253_402_300_799), "99991231_235959");
    assert_eq!(format_timestamp(253_402_300_800), "100000101_000000");
}

#[test]
fn timestamps_differ_from_second_to_second() {
    assert_ne!(format_timestamp(1_735_689_600), format_timestamp(1_735_689_601));
}

#[test]
fn timestamps_consist_of_digits_and_underscores() {
    for secs in [0, 86_399, 1_735_689_600, u64::MAX] {
        assert!(format_timestamp(secs).chars().all(|c| c.is_ascii_digit() || c == '_'));
    }
}
