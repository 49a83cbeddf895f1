use lib_ime::timestamp::{civil_from_days, format_mtime};

#[test]
fn epoch_is_first_of_january_1970() {
    assert_eq!(format_mtime(0), "1970-01-01 00:00:00");
    assert_eq!(format_mtime(86_399), "1970-01-01 23:59:59");
}

#[test]
fn leap_days_are_counted() {
    assert_eq!(format_mtime(951_782_400), "2000-02-29 00:00:00");
    assert_eq!(format_mtime(68_256_000), "1972-03-01 00:00:00");
    // 2100 is not a leap year.
    assert_eq!(format_mtime(4_107_542_399), "2100-02-28 23:59:59");
    assert_eq!(format_mtime(4_107_542_400), "2100-03-01 00:00:00");
}

#[test]
fn time_of_day_is_split_into_fields() {
    assert_eq!(format_mtime(1_700_000_000), "2023-11-14 22:13:20");
}

#[test]
fn far_future_years_keep_all_digits() {
    assert_eq!(format_mtime(253_402_300_799), "9999-12-31 23:59:59");
    assert_eq!(format_mtime(253_402_300_800), "10000-01-01 00:00:00");
}

#[test]
fn day_numbers_map_to_calendar_dates() {
    let d = civil_from_days(0);
    assert_eq!((d.year, d.month, d.day), (1970, 1, 1));
    let d = civil_from_days(11_016);
    assert_eq!((d.year, d.month, d.day), (2000, 2, 29));
    // One full 400-year cycle after the epoch.
    let d = civil_from_days(146_097);
    assert_eq!((d.year, d.month, d.day), (2370, 1, 1));
}

#[test]
fn documented_form_has_a_space_and_no_zone_letter() {
    assert_eq!(format_mtime(951_786_123), "2000-02-29 01:02:03");
}
