//! The calls into the SQLite binding. Nothing is promised of what a call
//! returns: that depends on the stored project. The stores decide on
//! whatever comes back.

use vstd::prelude::*;
use rusqlite::Connection;
use crate::memory::{stored_memory, Memory};
use crate::task::{stored_task, Task};

verus! {

/// `rusqlite::Connection`, a connection to a SQLite database. Nothing of
/// what it holds is visible to the proofs.
#[verifier::external_type_specification]
#[verifier::external_body]
pub struct ExConnection(rusqlite::Connection);

/// `rusqlite::Error`, the binding's error. Its report is read by
/// `error_text`; nothing else of it is looked at.
#[verifier::external_type_specification]
#[verifier::external_body]
pub struct ExSqlError(rusqlite::Error);

/// Calls `rusqlite::Connection::execute` with one statement and its
/// positional parameters, each a text or NULL. Returns what the call
/// returns: the number of rows changed, or the binding's error.
#[verifier::external_body]
pub(crate) fn execute(conn: &Connection, sql: &str, params: &Vec<Option<String>>) -> (changed:
    Result<usize, rusqlite::Error>) {
    conn.execute(sql, rusqlite::params_from_iter(params.iter()))
}

/// Calls `rusqlite::Connection::query_row` with a statement without
/// parameters and reads the first column of the first row as an integer.
/// Returns the binding's error where there is no row or no integer.
#[verifier::external_body]
pub(crate) fn query_number(conn: &Connection, sql: &str) -> (number: Result<i32, rusqlite::Error>) {
    conn.query_row(sql, [], |row| row.get(0))
}

/// Calls `rusqlite::Connection::query_row` with a statement without
/// parameters and reads the first column of the first row as a text.
/// Returns the binding's error where there is no row or no text.
#[verifier::external_body]
pub(crate) fn query_text(conn: &Connection, sql: &str) -> (text: Result<String, rusqlite::Error>) {
    conn.query_row(sql, [], |row| row.get(0))
}

/// Calls `rusqlite::Connection::prepare` and `rusqlite::Statement::query_map`
/// with a statement without parameters and reads column `column` of every
/// row as a text, in the order in which the rows come; a row that cannot be
/// read comes as the binding's error in its place. Returns the binding's
/// error where the statement fails.
#[verifier::external_body]
pub(crate) fn query_texts(conn: &Connection, sql: &str, column: usize) -> (texts: Result<
    Vec<Result<String, rusqlite::Error>>,
    rusqlite::Error,
>) {
    let mut stmt = conn.prepare(sql)?;
    let rows = stmt.query_map([], |row| row.get(column))?;
    Ok(rows.collect())
}

/// Calls `rusqlite::Connection::prepare` and `rusqlite::Statement::query_map`
/// with a statement without parameters whose rows have the seven columns of
/// a task, and hands each row's columns to `stored_task`, in the order in
/// which the rows come. Returns the binding's error where the statement or
/// a row fails.
#[verifier::external_body]
pub(crate) fn query_tasks(conn: &Connection, sql: &str) -> (rows: Result<
    Vec<Task>,
    rusqlite::Error,
>) {
    let mut stmt = conn.prepare(sql)?;
    let rows = stmt.query_map([], |row| {
        let (id, title, description) = (row.get(0)?, row.get(1)?, row.get(2)?);
        let (code, parent, depend, created) = (row.get(3)?, row.get(4)?, row.get(5)?, row.get(6)?);
        Ok(stored_task(id, title, description, code, parent, depend, created))
    })?;
    rows.collect()
}

/// Calls `rusqlite::Connection::prepare` and `rusqlite::Statement::query_map`
/// with a statement without parameters whose rows have the four columns of
/// a memory, and hands each row's columns to `stored_memory`, in the order
/// in which the rows come; a row that cannot be read comes as the binding's
/// error in its place. Returns the binding's error where the statement
/// fails.
#[verifier::external_body]
pub(crate) fn query_memories(conn: &Connection, sql: &str) -> (rows: Result<
    Vec<Result<Memory, rusqlite::Error>>,
    rusqlite::Error,
>) {
    let mut stmt = conn.prepare(sql)?;
    let rows = stmt.query_map([], |row| {
        Ok(stored_memory(row.get(0)?, row.get(1)?, row.get(2)?, row.get(3)?))
    })?;
    Ok(rows.collect())
}

/// Renders the binding's error with its `Display` implementation.
#[verifier::external_body]
pub(crate) fn error_text(error: &rusqlite::Error) -> (text: String) {
    error.to_string()
}

} // verus!
