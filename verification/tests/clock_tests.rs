use hat_monitor::clock::{format_vn_timestamp, timestamp_label, VN_OFFSET_SECONDS};

#[test]
fn offset_is_seven_hours() {
    assert_eq!(VN_OFFSET_SECONDS, 25_200);
}

#[test]
fn epoch_is_seven_in_the_morning() {
    assert_eq!(format_vn_timestamp(0), "01/01/1970 07:00:00");
}

#[test]
fn known_moments() {
    assert_eq!(format_vn_timestamp(1_700_000_000), "15/11/2023 05:13:20");
    assert_eq!(format_vn_timestamp(1_431_648_000), "15/05/2015 07:00:00");
    assert_eq!(format_vn_timestamp(951_782_400), "29/02/2000 07:00:00");
}

#[test]
fn day_changes_at_five_in_the_afternoon_utc() {
    assert_eq!(format_vn_timestamp(16 * 3600 + 59 * 60 + 59), "01/01/1970 23:59:59");
    assert_eq!(format_vn_timestamp(17 * 3600), "02/01/1970 00:00:00");
}

#[test]
fn seconds_beyond_i64_wrap_to_before_the_epoch() {
    assert_eq!(format_vn_timestamp(u64::MAX), "01/01/1970 06:59:59");
}

#[test]
fn out_of_range_moment_is_invalid() {
    assert_eq!(format_vn_timestamp(i64::MAX as u64), "Invalid Time");
    assert_eq!(format_vn_timestamp(1u64 << 63), "Invalid Time");
    assert_eq!(format_vn_timestamp(10_000_000_000_000), "Invalid Time");
}

#[test]
fn label_of_missing_time() {
    assert_eq!(timestamp_label(None), "Invalid Time");
    assert_eq!(timestamp_label(Some("01/01/1970 07:00:00".to_string())), "01/01/1970 07:00:00");
    assert_eq!(timestamp_label(Some(String::new())), "");
}
