use vstd::prelude::*;
use crate::errors::TaskError;
use crate::model::{
    SpecRow, table_wf, remove_id, render_row, render_all, lemma_remove_id_wf,
    lemma_add_fresh_and_listed,
};
use crate::num::{is_digits, digits_val, parse_id, i64_to_string};

verus! {

/// The embedded database connection the store works through.
#[verifier::external_type_specification]
#[verifier::external_body]
pub struct ExConnection(rusqlite::Connection);

/// The database driver's error type; the store maps every value of it to
/// `TaskError::StorageError`.
#[verifier::external_type_specification]
#[verifier::external_body]
pub struct ExSqlError(rusqlite::Error);

/// Whether the connection's database holds the task table.
pub uninterp spec fn db_has_table(conn: rusqlite::Connection) -> bool;

/// The rows of the task table behind the connection — id, text and
/// creation timestamp — in ascending id order, the order a full scan of
/// this rowid table yields them.
pub uninterp spec fn db_tasks(conn: rusqlite::Connection) -> Seq<SpecRow>;

/// The id the task table's AUTOINCREMENT sequence will assign to the next
/// inserted row.
pub uninterp spec fn db_next_id(conn: rusqlite::Connection) -> int;

/// Relies on rusqlite::Connection::execute running
/// `CREATE TABLE IF NOT EXISTS`: the table is created only when absent —
/// empty, with its sequence at 1 — and an existing table keeps every row;
/// a failed statement changes nothing.
#[verifier::external_body]
fn exec_create_table(conn: &mut rusqlite::Connection) -> (r: Result<(), rusqlite::Error>)
    ensures
        r is Ok ==> db_has_table(*final(conn)),
        r is Ok && db_has_table(*old(conn)) ==> db_tasks(*final(conn)) == db_tasks(*old(conn))
            && db_next_id(*final(conn)) == db_next_id(*old(conn)),
        r is Ok && !db_has_table(*old(conn)) ==> db_tasks(*final(conn)) == Seq::<SpecRow>::empty()
            && db_next_id(*final(conn)) == 1,
        r is Err ==> db_has_table(*final(conn)) == db_has_table(*old(conn)) && db_tasks(
            *final(conn),
        ) == db_tasks(*old(conn)) && db_next_id(*final(conn)) == db_next_id(*old(conn)),
{
    let outcome = conn.execute(
        "CREATE TABLE IF NOT EXISTS tasks (
            id    INTEGER PRIMARY KEY AUTOINCREMENT,
            task  TEXT NOT NULL,
            created_at TEXT NOT NULL DEFAULT (DATETIME('now', 'localtime'))
        )",
        [],
    );
    match outcome {
        Ok(_) => Ok(()),
        Err(e) => Err(e),
    }
}

/// Relies on rusqlite::Connection::execute running an `INSERT` that hands
/// over the task text alone: the AUTOINCREMENT key assigns the sequence's
/// id and advances it by one, the timestamp default fills `created_at`,
/// the insert fails when the table is absent, and a failed statement
/// changes nothing.
#[verifier::external_body]
fn exec_insert_task(conn: &mut rusqlite::Connection, task: &str) -> (r: Result<
    (),
    rusqlite::Error,
>)
    ensures
        !db_has_table(*old(conn)) ==> r is Err,
        r is Ok ==> db_has_table(*final(conn)) && db_next_id(*final(conn)) == db_next_id(
            *old(conn),
        ) + 1 && exists|ts: Seq<char>|
            db_tasks(*final(conn)) == db_tasks(*old(conn)).push(
                (db_next_id(*old(conn)), task@, ts),
            ),
        r is Err ==> db_has_table(*final(conn)) == db_has_table(*old(conn)) && db_tasks(
            *final(conn),
        ) == db_tasks(*old(conn)) && db_next_id(*final(conn)) == db_next_id(*old(conn)),
{
    match conn.execute("INSERT INTO tasks (task) VALUES (?1)", (task,)) {
        Ok(_) => Ok(()),
        Err(e) => Err(e),
    }
}

/// Relies on rusqlite::Connection::execute running a `DELETE` keyed on
/// the id: exactly the rows carrying that id go (none, when the id is
/// absent), the rest keep their order, the AUTOINCREMENT sequence stands,
/// the statement fails when the table is absent, and a failed statement
/// changes nothing.
#[verifier::external_body]
fn exec_delete_task(conn: &mut rusqlite::Connection, id: i64) -> (r: Result<(), rusqlite::Error>)
    ensures
        !db_has_table(*old(conn)) ==> r is Err,
        r is Ok ==> db_has_table(*final(conn)) && db_tasks(*final(conn)) == remove_id(
            db_tasks(*old(conn)),
            id as int,
        ) && db_next_id(*final(conn)) == db_next_id(*old(conn)),
        r is Err ==> db_has_table(*final(conn)) == db_has_table(*old(conn)) && db_tasks(
            *final(conn),
        ) == db_tasks(*old(conn)) && db_next_id(*final(conn)) == db_next_id(*old(conn)),
{
    match conn.execute("DELETE FROM tasks WHERE id = ?1", (id,)) {
        Ok(_) => Ok(()),
        Err(e) => Err(e),
    }
}

/// Relies on rusqlite::Connection::prepare and Statement::query_map over
/// `SELECT id, task, created_at FROM tasks`: a full scan of this rowid
/// table yields every row exactly once, in the ascending id order that
/// `db_tasks` models, and the query fails when the table is absent.
#[verifier::external_body]
fn query_task_rows(conn: &rusqlite::Connection) -> (r: Result<
    Vec<(i64, String, String)>,
    rusqlite::Error,
>)
    ensures
        !db_has_table(*conn) ==> r is Err,
        r matches Ok(v) ==> v@.len() == db_tasks(*conn).len() && forall|j: int|
            0 <= j < v@.len() ==> (#[trigger] v@[j]).0 as int == db_tasks(*conn)[j].0 && v@[j].1@
                == db_tasks(*conn)[j].1 && v@[j].2@ == db_tasks(*conn)[j].2,
{
    let mut stmt = match conn.prepare("SELECT id, task, created_at FROM tasks") {
        Ok(s) => s,
        Err(e) => return Err(e),
    };
    let rows = match stmt.query_map([], |row| Ok((row.get(0)?, row.get(1)?, row.get(2)?))) {
        Ok(it) => it,
        Err(e) => return Err(e),
    };
    rows.collect()
}

/// Creates the task table when it is absent. A second run finds the table
/// and leaves every stored row and the id sequence exactly as they were;
/// a fresh table starts empty, well-formed, with its sequence at 1.
pub fn init_task_table(conn: &mut rusqlite::Connection) -> (r: Result<(), TaskError>)
    ensures
        r is Ok ==> db_has_table(*final(conn)),
        r is Ok && db_has_table(*old(conn)) ==> db_tasks(*final(conn)) == db_tasks(*old(conn))
            && db_next_id(*final(conn)) == db_next_id(*old(conn)),
        r is Ok && !db_has_table(*old(conn)) ==> db_tasks(*final(conn)) == Seq::<SpecRow>::empty()
            && db_next_id(*final(conn)) == 1,
        r is Ok && (!db_has_table(*old(conn)) || table_wf(db_tasks(*old(conn)), db_next_id(*old(conn))))
            ==> table_wf(db_tasks(*final(conn)), db_next_id(*final(conn))),
        r is Err ==> r == Err::<(), TaskError>(TaskError::StorageError) && db_has_table(
            *final(conn),
        ) == db_has_table(*old(conn)) && db_tasks(*final(conn)) == db_tasks(*old(conn))
            && db_next_id(*final(conn)) == db_next_id(*old(conn)),
{
    match exec_create_table(conn) {
        Ok(_) => Ok(()),
        Err(_) => Err(TaskError::StorageError),
    }
}

/// Inserts one task with the given text; the store assigns the id and the
/// creation timestamp. The new row is appended under the id the sequence
/// held — an id no stored row carries, in a well-formed table — and the
/// sequence advances, so that id is never handed out again. Fails with
/// `StorageError` when the table is absent or the statement cannot run,
/// and a failure leaves the rows as they were.
pub fn add_task(conn: &mut rusqlite::Connection, task: String) -> (r: Result<(), TaskError>)
    ensures
        !db_has_table(*old(conn)) ==> r is Err,
        r is Ok ==> db_has_table(*final(conn)) && db_next_id(*final(conn)) == db_next_id(
            *old(conn),
        ) + 1 && exists|ts: Seq<char>|
            db_tasks(*final(conn)) == db_tasks(*old(conn)).push(
                (db_next_id(*old(conn)), task@, ts),
            ),
        r is Ok && table_wf(db_tasks(*old(conn)), db_next_id(*old(conn))) ==> table_wf(
            db_tasks(*final(conn)),
            db_next_id(*final(conn)),
        ),
        r is Err ==> r == Err::<(), TaskError>(TaskError::StorageError) && db_has_table(
            *final(conn),
        ) == db_has_table(*old(conn)) && db_tasks(*final(conn)) == db_tasks(*old(conn))
            && db_next_id(*final(conn)) == db_next_id(*old(conn)),
{
    match exec_insert_task(conn, task.as_str()) {
        Ok(_) => {
            proof {
                if table_wf(db_tasks(*old(conn)), db_next_id(*old(conn))) {
                    let ts = choose|ts: Seq<char>|
                        db_tasks(*conn) == db_tasks(*old(conn)).push(
                            (db_next_id(*old(conn)), task@, ts),
                        );
                    lemma_add_fresh_and_listed(
                        db_tasks(*old(conn)),
                        db_next_id(*old(conn)),
                        task@,
                        ts,
                    );
                }
            }
            Ok(())
        },
        Err(_) => Err(TaskError::StorageError),
    }
}

/// Deletes the task under the given id, handed over as the decimal
/// numeral the command line carries. A well-formed id with no matching
/// row still succeeds: the statement simply touches no row. A malformed
/// or oversized numeral fails with `StorageError` before the store is
/// touched, and a statement failure leaves the rows as they were.
pub fn delete_task(conn: &mut rusqlite::Connection, id: String) -> (r: Result<(), TaskError>)
    ensures
        (!is_digits(id@) || digits_val(id@) > i64::MAX) ==> r is Err,
        !db_has_table(*old(conn)) ==> r is Err,
        r is Ok ==> is_digits(id@) && db_has_table(*final(conn)) && db_tasks(*final(conn))
            == remove_id(db_tasks(*old(conn)), digits_val(id@)) && db_next_id(*final(conn))
            == db_next_id(*old(conn)),
        r is Ok && table_wf(db_tasks(*old(conn)), db_next_id(*old(conn))) ==> table_wf(
            db_tasks(*final(conn)),
            db_next_id(*final(conn)),
        ),
        r is Err ==> r == Err::<(), TaskError>(TaskError::StorageError) && db_has_table(
            *final(conn),
        ) == db_has_table(*old(conn)) && db_tasks(*final(conn)) == db_tasks(*old(conn))
            && db_next_id(*final(conn)) == db_next_id(*old(conn)),
{
    let parsed = match parse_id(id.as_str()) {
        None => {
            return Err(TaskError::StorageError);
        },
        Some(n) => n,
    };
    match exec_delete_task(conn, parsed) {
        Ok(_) => {
            proof {
                if table_wf(db_tasks(*old(conn)), db_next_id(*old(conn))) {
                    lemma_remove_id_wf(
                        db_tasks(*old(conn)),
                        db_next_id(*old(conn)),
                        parsed as int,
                    );
                }
            }
            Ok(())
        },
        Err(_) => Err(TaskError::StorageError),
    }
}

/// Renders one task as its listing line, `<id>. <task> - <created_at>`.
pub fn render_task(id: i64, task: &str, created_at: &str) -> (r: String)
    ensures
        r@ == render_row((id as int, task@, created_at@)),
{
    let mut r = i64_to_string(id);
    r.append(". ");
    r.append(task);
    r.append(" - ");
    r.append(created_at);
    proof {
        assert(r@ =~= render_row((id as int, task@, created_at@)));
    }
    r
}

/// Renders every queried row in order, one listing line per row.
pub fn render_rows(rows: &Vec<(i64, String, String)>) -> (r: Vec<String>)
    ensures
        r@.len() == rows@.len(),
        forall|j: int|
            0 <= j < rows@.len() ==> (#[trigger] r@[j])@ == render_row(
                ((rows@[j].0 as int, rows@[j].1@, rows@[j].2@)),
            ),
{
    let mut out: Vec<String> = Vec::new();
    let mut i: usize = 0;
    while i < rows.len()
        invariant
            0 <= i <= rows@.len(),
            out@.len() == i,
            forall|j: int|
                0 <= j < i ==> (#[trigger] out@[j])@ == render_row(
                    ((rows@[j].0 as int, rows@[j].1@, rows@[j].2@)),
                ),
        decreases rows@.len() - i,
    {
        let row = &rows[i];
        let line = render_task(row.0, row.1.as_str(), row.2.as_str());
        out.push(line);
        i = i + 1;
    }
    out
}

/// Lists every stored task, each rendered as `<id>. <task> - <created_at>`,
/// in the order the store yields them. Fails with `StorageError` when the
/// table is absent or the query cannot run.
pub fn list_tasks(conn: &rusqlite::Connection) -> (r: Result<Vec<String>, TaskError>)
    ensures
        !db_has_table(*conn) ==> r is Err,
        r matches Ok(v) ==> v@.len() == db_tasks(*conn).len() && forall|j: int|
            0 <= j < v@.len() ==> (#[trigger] v@[j])@ == render_all(db_tasks(*conn))[j],
        r is Err ==> r == Err::<Vec<String>, TaskError>(TaskError::StorageError),
{
    match query_task_rows(conn) {
        Ok(rows) => {
            let lines = render_rows(&rows);
            proof {
                assert forall|j: int| 0 <= j < lines@.len() implies (#[trigger] lines@[j])@
                    == render_all(db_tasks(*conn))[j] by {
                    assert(db_tasks(*conn)[j] == (
                        db_tasks(*conn)[j].0,
                        db_tasks(*conn)[j].1,
                        db_tasks(*conn)[j].2,
                    ));
                }
            }
            Ok(lines)
        },
        Err(_) => Err(TaskError::StorageError),
    }
}

} // verus!
