use mainlogic::clock::format_timestamp;
use mainlogic::clock::unix_millis;
use mainlogic::clock::unix_seconds;

#[test]
fn the_start_of_1970_is_second_zero() {
    assert_eq!(format_timestamp(0), "1970-01-01 00:00:00");
}

#[test]
fn timestamps_show_date_and_time_in_utc() {
    assert_eq!(format_timestamp(1), "1970-01-01 00:00:01");
    assert_eq!(format_timestamp(86_399), "1970-01-01 23:59:59");
    assert_eq!(format_timestamp(86_400), "1970-01-02 00:00:00");
    assert_eq!(format_timestamp(951_782_400), "2000-02-29 00:00:00");
    assert_eq!(format_timestamp(1_431_648_000), "2015-05-15 00:00:00");
    assert_eq!(format_timestamp(1_709_251_199), "2024-02-29 23:59:59");
    assert_eq!(format_timestamp(253_402_300_799), "9999-12-31 23:59:59");
}

#[test]
fn a_moment_that_cannot_be_written_gives_no_text() {
    assert_eq!(format_timestamp(u64::MAX), "");
    assert_eq!(format_timestamp(i64::MAX as u64 + 1), "");
    assert_eq!(format_timestamp(i64::MAX as u64), "");
}

#[test]
fn seconds_of_a_clock_reading() {
    assert_eq!(unix_seconds(Some((0, 0))), 0);
    assert_eq!(unix_seconds(Some((1_700_000_000, 999))), 1_700_000_000);
    assert_eq!(unix_seconds(Some((u64::MAX, 0))), u64::MAX);
    assert_eq!(unix_seconds(None), 0);
}

#[test]
fn milliseconds_of_a_clock_reading() {
    assert_eq!(unix_millis(Some((0, 0))), 0);
    assert_eq!(unix_millis(Some((0, 999))), 999);
    assert_eq!(unix_millis(Some((1, 0))), 1000);
    assert_eq!(unix_millis(Some((1_700_000_000, 123))), 1_700_000_000_123);
    assert_eq!(unix_millis(None), 0);
}

#[test]
fn milliseconds_wrap_at_64_bits() {
    let seconds = u64::MAX / 1000 + 1;
    let exact: u128 = seconds as u128 * 1000 + 5;
    assert!(exact > u64::MAX as u128);
    assert_eq!(unix_millis(Some((seconds, 5))), exact as u64);
    assert_eq!(
        unix_millis(Some((u64::MAX, 999))),
        (u64::MAX as u128 * 1000 + 999) as u64
    );
}
