use task_tracker::errors::TaskError;
use task_tracker::num::{digit_val, i64_to_string, parse_id, u64_to_string};
use task_tracker::paths::{db_file_path, get_home_path, init_dir, task_dir_path};
use task_tracker::store::{render_rows, render_task};

#[test]
fn renders_a_row_exactly() {
    let line = render_task(1, "buy milk", "2024-01-02 03:04:05");
    assert_eq!(line, "1. buy milk - 2024-01-02 03:04:05");
}

#[test]
fn renders_negative_and_extreme_ids() {
    assert_eq!(render_task(-5, "x", "t"), "-5. x - t");
    assert_eq!(i64_to_string(i64::MIN), "-9223372036854775808");
    assert_eq!(i64_to_string(i64::MAX), "9223372036854775807");
    assert_eq!(u64_to_string(0), "0");
    assert_eq!(u64_to_string(18446744073709551615), "18446744073709551615");
    assert_eq!(u64_to_string(1000), "1000");
}

#[test]
fn renders_rows_in_order() {
    let rows = vec![
        (1, "first".to_string(), "t1".to_string()),
        (2, "second".to_string(), "t2".to_string()),
    ];
    let lines = render_rows(&rows);
    assert_eq!(lines, vec!["1. first - t1", "2. second - t2"]);
}

#[test]
fn parses_well_formed_ids() {
    assert_eq!(parse_id("0"), Some(0));
    assert_eq!(parse_id("42"), Some(42));
    assert_eq!(parse_id("007"), Some(7));
    assert_eq!(parse_id("9223372036854775807"), Some(i64::MAX));
}

#[test]
fn rejects_malformed_or_oversized_ids() {
    assert_eq!(parse_id(""), None);
    assert_eq!(parse_id("12a"), None);
    assert_eq!(parse_id("-3"), None);
    assert_eq!(parse_id(" 1"), None);
    assert_eq!(parse_id("9223372036854775808"), None);
    assert_eq!(parse_id("99999999999999999999999"), None);
}

#[test]
fn digit_values_match_their_characters() {
    assert_eq!(digit_val('0'), Some(0));
    assert_eq!(digit_val('9'), Some(9));
    assert_eq!(digit_val('x'), None);
}

#[test]
fn storage_paths_hang_off_the_home_directory() {
    assert_eq!(
        task_dir_path("/home/someone"),
        "/home/someone/.terminal_task_manager"
    );
    assert_eq!(
        db_file_path("/home/someone/.terminal_task_manager"),
        "/home/someone/.terminal_task_manager/tasks.db3"
    );
}

#[test]
fn init_dir_computes_both_locations_or_reports_the_environment() {
    match init_dir() {
        Ok((dir, file)) => {
            assert!(dir.ends_with("/.terminal_task_manager"));
            assert_eq!(file, format!("{}/tasks.db3", dir));
            assert_eq!(get_home_path().is_ok(), true);
        }
        Err(e) => assert_eq!(e, TaskError::EnvironmentError),
    }
}

#[test]
fn error_messages_name_the_failure() {
    assert_eq!(TaskError::EnvironmentError.message(), "Cannot get home dir");
    assert_eq!(
        TaskError::IoError.message(),
        "Unable to create directory or file"
    );
    assert_eq!(
        TaskError::StorageError.message(),
        "Unable to access task storage"
    );
}
