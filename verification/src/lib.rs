//! A small task tracker library: tasks live in one SQLite table with an
//! auto-assigned id and a creation timestamp, and the library offers the
//! four operations of the tool — initialize the storage, add a task,
//! delete a task by id, and list every task as a rendered line.
pub mod errors;
pub mod model;
pub mod num;
pub mod paths;
pub mod store;
