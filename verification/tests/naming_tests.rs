use backup_engine::naming::{format_archive_path, format_decimal, format_timestamp};

#[test]
fn archive_path_formula_exact() {
    let p = format_archive_path("/backups/docs", 1_700_000_000, "0f8a");
    assert_eq!(p, "/backups/docs/1700000000-0f8a.zip");
}

#[test]
fn archive_path_zero_timestamp() {
    let p = format_archive_path("out", 0, "id");
    assert_eq!(p, "out/0-id.zip");
}

#[test]
fn archive_path_negative_timestamp() {
    let p = format_archive_path("out", -5, "id");
    assert_eq!(p, "out/-5-id.zip");
}

#[test]
fn decimal_digits_exact() {
    assert_eq!(format_decimal(0), "0");
    assert_eq!(format_decimal(7), "7");
    assert_eq!(format_decimal(10), "10");
    assert_eq!(format_decimal(90210), "90210");
    assert_eq!(format_decimal(u64::MAX), "18446744073709551615");
}

#[test]
fn timestamp_signed_rendering() {
    assert_eq!(format_timestamp(1_700_000_000), "1700000000");
    assert_eq!(format_timestamp(-1), "-1");
    assert_eq!(format_timestamp(i64::MIN), "-9223372036854775808");
    assert_eq!(format_timestamp(i64::MAX), "9223372036854775807");
}
