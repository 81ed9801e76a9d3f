use rusqlite::Connection;
use task_tracker::errors::TaskError;
use task_tracker::store::{add_task, delete_task, init_task_table, list_tasks};

fn fresh_store() -> Connection {
    let mut conn = Connection::open_in_memory().expect("in-memory database");
    init_task_table(&mut conn).expect("schema");
    conn
}

#[test]
fn init_creates_empty_store() {
    let conn = fresh_store();
    let lines = list_tasks(&conn).expect("list");
    assert_eq!(lines.len(), 0);
}

#[test]
fn add_then_list_shows_the_task_under_id_one() {
    let mut conn = fresh_store();
    add_task(&mut conn, "buy milk".to_string()).expect("add");
    let lines = list_tasks(&conn).expect("list");
    assert_eq!(lines.len(), 1);
    assert!(lines[0].starts_with("1. buy milk - "));
    assert!(lines[0].len() > "1. buy milk - ".len());
}

#[test]
fn added_tasks_get_consecutive_fresh_ids() {
    let mut conn = fresh_store();
    add_task(&mut conn, "first".to_string()).expect("add");
    add_task(&mut conn, "second".to_string()).expect("add");
    let lines = list_tasks(&conn).expect("list");
    assert_eq!(lines.len(), 2);
    assert!(lines[0].starts_with("1. first - "));
    assert!(lines[1].starts_with("2. second - "));
}

#[test]
fn delete_removes_exactly_the_given_id() {
    let mut conn = fresh_store();
    add_task(&mut conn, "first".to_string()).expect("add");
    add_task(&mut conn, "second".to_string()).expect("add");
    delete_task(&mut conn, "1".to_string()).expect("delete");
    let lines = list_tasks(&conn).expect("list");
    assert_eq!(lines.len(), 1);
    assert!(lines[0].starts_with("2. second - "));
}

#[test]
fn delete_is_idempotent() {
    let mut conn = fresh_store();
    add_task(&mut conn, "first".to_string()).expect("add");
    add_task(&mut conn, "second".to_string()).expect("add");
    assert_eq!(delete_task(&mut conn, "1".to_string()), Ok(()));
    assert_eq!(delete_task(&mut conn, "1".to_string()), Ok(()));
    let lines = list_tasks(&conn).expect("list");
    assert_eq!(lines.len(), 1);
    assert!(lines[0].starts_with("2. second - "));
}

#[test]
fn delete_of_an_absent_id_succeeds_and_changes_nothing() {
    let mut conn = fresh_store();
    add_task(&mut conn, "keep me".to_string()).expect("add");
    let before = list_tasks(&conn).expect("list");
    assert_eq!(delete_task(&mut conn, "999".to_string()), Ok(()));
    let after = list_tasks(&conn).expect("list");
    assert_eq!(before, after);
}

#[test]
fn delete_of_a_malformed_id_fails_without_touching_rows() {
    let mut conn = fresh_store();
    add_task(&mut conn, "keep me".to_string()).expect("add");
    assert_eq!(
        delete_task(&mut conn, "not a number".to_string()),
        Err(TaskError::StorageError)
    );
    assert_eq!(
        delete_task(&mut conn, "".to_string()),
        Err(TaskError::StorageError)
    );
    assert_eq!(
        delete_task(&mut conn, "9223372036854775808".to_string()),
        Err(TaskError::StorageError)
    );
    let lines = list_tasks(&conn).expect("list");
    assert_eq!(lines.len(), 1);
}

#[test]
fn init_twice_keeps_existing_rows() {
    let mut conn = fresh_store();
    add_task(&mut conn, "survivor".to_string()).expect("add");
    let before = list_tasks(&conn).expect("list");
    assert_eq!(init_task_table(&mut conn), Ok(()));
    let after = list_tasks(&conn).expect("list");
    assert_eq!(before, after);
    assert_eq!(after.len(), 1);
}

#[test]
fn ids_are_never_reused_after_a_delete() {
    let mut conn = fresh_store();
    add_task(&mut conn, "first".to_string()).expect("add");
    add_task(&mut conn, "second".to_string()).expect("add");
    delete_task(&mut conn, "2".to_string()).expect("delete");
    add_task(&mut conn, "third".to_string()).expect("add");
    let lines = list_tasks(&conn).expect("list");
    assert_eq!(lines.len(), 2);
    assert!(lines[0].starts_with("1. first - "));
    assert!(lines[1].starts_with("3. third - "));
}

#[test]
fn operations_before_init_fail_with_storage_error() {
    let mut conn = Connection::open_in_memory().expect("in-memory database");
    assert_eq!(
        add_task(&mut conn, "too early".to_string()),
        Err(TaskError::StorageError)
    );
    assert_eq!(
        delete_task(&mut conn, "1".to_string()),
        Err(TaskError::StorageError)
    );
    assert_eq!(list_tasks(&conn), Err(TaskError::StorageError));
}

#[test]
fn task_text_is_stored_verbatim() {
    let mut conn = fresh_store();
    add_task(&mut conn, "  spaced  out  ".to_string()).expect("add");
    let lines = list_tasks(&conn).expect("list");
    assert_eq!(lines.len(), 1);
    assert!(lines[0].starts_with("1.   spaced  out   - "));
}
