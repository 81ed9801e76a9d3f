use vstd::prelude::*;

verus! {

/// The failure kinds of the task tracker: the home directory cannot be
/// resolved (`EnvironmentError`), a filesystem step failed (`IoError`),
/// or the task storage refused an operation (`StorageError`).
#[derive(Clone, Copy, Debug, PartialEq, Eq, Structural)]
pub enum TaskError {
    EnvironmentError,
    IoError,
    StorageError,
}

impl TaskError {
    /// A human-readable description of the failure, printed by the
    /// command-line front end before it exits non-zero.
    pub fn message(&self) -> (r: &'static str)
        ensures
            *self == TaskError::EnvironmentError ==> r@ == "Cannot get home dir"@,
            *self == TaskError::IoError ==> r@ == "Unable to create directory or file"@,
            *self == TaskError::StorageError ==> r@ == "Unable to access task storage"@,
    {
        match self {
            TaskError::EnvironmentError => "Cannot get home dir",
            TaskError::IoError => "Unable to create directory or file",
            TaskError::StorageError => "Unable to access task storage",
        }
    }
}

} // verus!
