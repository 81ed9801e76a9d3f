use vstd::prelude::*;
use crate::errors::TaskError;

verus! {

/// Relies on dirs::home_dir: the platform's notion of the current user's
/// home directory. `None` when the platform cannot supply one, or when
/// its path is not valid Unicode; the outcome depends on the environment,
/// so nothing more is promised of it.
#[verifier::external_body]
fn home_dir_string() -> (r: Option<String>) {
    dirs::home_dir().and_then(|p| p.to_str().map(|s| s.to_string()))
}

/// Resolves the user's home directory, failing with `EnvironmentError`
/// when the platform cannot supply one.
pub fn get_home_path() -> (r: Result<String, TaskError>)
    ensures
        r is Err ==> r == Err::<String, TaskError>(TaskError::EnvironmentError),
{
    match home_dir_string() {
        Some(p) => Ok(p),
        None => Err(TaskError::EnvironmentError),
    }
}

/// The storage directory under the home directory:
/// `<home>/.terminal_task_manager`.
pub fn task_dir_path(home: &str) -> (r: String)
    ensures
        r@ == home@ + "/.terminal_task_manager"@,
{
    let mut r = String::from_str(home);
    r.append("/.terminal_task_manager");
    r
}

/// The database file inside the storage directory: `<dir>/tasks.db3`.
pub fn db_file_path(dir: &str) -> (r: String)
    ensures
        r@ == dir@ + "/tasks.db3"@,
{
    let mut r = String::from_str(dir);
    r.append("/tasks.db3");
    r
}

/// Computes the two locations the init command must set up: the storage
/// directory under the resolved home directory, and the database file
/// inside it. Fails with `EnvironmentError` when no home directory can
/// be resolved. Creating the directory, and the file where it is absent,
/// is the caller's part — an existing database file must be left as it
/// stands.
pub fn init_dir() -> (r: Result<(String, String), TaskError>)
    ensures
        r matches Ok(p) ==> (exists|home: Seq<char>|
            p.0@ == home + "/.terminal_task_manager"@) && p.1@ == p.0@ + "/tasks.db3"@,
        r is Err ==> r == Err::<(String, String), TaskError>(TaskError::EnvironmentError),
{
    let home = match get_home_path() {
        Ok(h) => h,
        Err(e) => {
            return Err(e);
        },
    };
    let dir = task_dir_path(home.as_str());
    let file = db_file_path(dir.as_str());
    proof {
        assert(dir@ == home@ + "/.terminal_task_manager"@);
    }
    Ok((dir, file))
}

} // verus!
