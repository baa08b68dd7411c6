use stockdata::snapshot::{
    get_timestamped_filename, padded_number, snapshot_dir, snapshot_path, timestamped_filename,
    LocalTime,
};

fn moment(year: i32, month: u8, day: u8, hour: u8, minute: u8, second: u8) -> LocalTime {
    LocalTime { year, month, day, hour, minute, second }
}

#[test]
fn file_names_are_put_together_from_their_parts() {
    assert_eq!(
        timestamped_filename("output", "stock_data", "20240102_030405", "json"),
        "output/stock_data_20240102_030405.json"
    );
    assert_eq!(
        timestamped_filename("output", "stock_data", "20240102_030405", ".json"),
        "output/stock_data_20240102_030405.json"
    );
    assert_eq!(timestamped_filename(".", "p", "t", ""), "./p_t.");
    assert_eq!(timestamped_filename("", "", "", "x"), "/_.x");
}

#[test]
fn time_stamps_are_written_digit_by_digit() {
    assert_eq!(moment(2024, 1, 2, 3, 4, 5).stamp(), "20240102_030405");
    assert_eq!(moment(1999, 12, 31, 23, 59, 59).stamp(), "19991231_235959");
    assert_eq!(moment(2016, 12, 31, 23, 59, 60).stamp(), "20161231_235960");
    assert_eq!(moment(0, 1, 1, 0, 0, 0).stamp(), "00000101_000000");
    assert_eq!(moment(987, 6, 5, 4, 3, 2).stamp(), "09870605_040302");
    assert_eq!(moment(9999, 1, 1, 0, 0, 0).stamp(), "99990101_000000");
    assert_eq!(moment(10000, 1, 1, 0, 0, 0).stamp(), "+100000101_000000");
    assert_eq!(moment(-1, 1, 1, 0, 0, 0).stamp(), "-00010101_000000");
    assert_eq!(moment(-12345, 1, 1, 0, 0, 0).stamp(), "-123450101_000000");
    assert_eq!(moment(i32::MIN, 1, 1, 0, 0, 0).stamp(), "-21474836480101_000000");
}

#[test]
fn numbers_are_padded_with_zeros() {
    assert_eq!(padded_number(7, 2), "07");
    assert_eq!(padded_number(0, 2), "00");
    assert_eq!(padded_number(42, 2), "42");
    assert_eq!(padded_number(123, 2), "123");
    assert_eq!(padded_number(5, 0), "5");
    assert_eq!(padded_number(5, 6), "000005");
}

#[test]
fn file_names_carry_the_time_given() {
    let now = moment(2024, 1, 2, 3, 4, 5);
    assert_eq!(
        get_timestamped_filename("dir", "prefix", "csv", &now),
        "dir/prefix_20240102_030405.csv"
    );
    assert_eq!(
        get_timestamped_filename("output", "stock_data", ".json", &now),
        "output/stock_data_20240102_030405.json"
    );
}

#[test]
fn snapshots_fall_back_to_the_current_directory() {
    assert_eq!(snapshot_dir(true), "output");
    assert_eq!(snapshot_dir(false), ".");
    let stamp = moment(2024, 1, 2, 3, 4, 5).stamp();
    assert_eq!(snapshot_path(true, &stamp), "output/stock_data_20240102_030405.json");
    assert_eq!(snapshot_path(false, &stamp), "./stock_data_20240102_030405.json");
    assert_eq!(snapshot_path(false, ""), "./stock_data_.json");
}
