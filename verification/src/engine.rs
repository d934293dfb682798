//! Trusted bindings to the embedded SQLite engine (the `rusqlite` crate).
//!
//! Nothing in this module is verified: each wrapper's body makes one engine
//! call, and its doc comment names the `rusqlite` items it relies on. What a
//! call returns depends on the file on disk, so the wrappers promise nothing
//! about the values that come back; the verified logic in `db` states what
//! holds of every outcome.

use vstd::prelude::*;

verus! {

#[verifier::external_type_specification]
#[verifier::external_body]
pub struct ExConnection(rusqlite::Connection);

#[verifier::external_type_specification]
#[verifier::external_body]
pub struct ExSqlError(rusqlite::Error);

/// Relies on `rusqlite::Connection::open`: opens the database file at `path`,
/// creating it if absent, and fails on filesystem or container-level errors.
#[verifier::external_body]
pub(crate) fn open_connection(path: &str) -> Result<rusqlite::Connection, rusqlite::Error> {
    rusqlite::Connection::open(path)
}

/// Relies on `rusqlite::Connection::query_row` and `rusqlite::Row::get`:
/// reads the 32-bit application-identifier header slot of the open file.
#[verifier::external_body]
pub(crate) fn read_application_id(
    conn: &rusqlite::Connection,
) -> Result<i32, rusqlite::Error> {
    conn.query_row(
        "SELECT application_id FROM pragma_application_id()",
        [],
        |r| r.get(0),
    )
}

/// Relies on `rusqlite::Connection::prepare` and `rusqlite::Statement::exists`:
/// reports whether the file's catalog lists at least one table.
#[verifier::external_body]
pub(crate) fn any_table_exists(
    conn: &rusqlite::Connection,
) -> Result<bool, rusqlite::Error> {
    conn.prepare("SELECT tbl_name FROM sqlite_schema LIMIT 1")
        .and_then(|mut s| s.exists([]))
}

/// Relies on `rusqlite::Connection::query_row` and `rusqlite::Row::get`:
/// reads the 32-bit schema-version header slot of the open file.
#[verifier::external_body]
pub(crate) fn read_user_version(
    conn: &rusqlite::Connection,
) -> Result<u32, rusqlite::Error> {
    conn.query_row(
        "SELECT user_version FROM pragma_user_version",
        [],
        |r| r.get(0),
    )
}

/// Relies on `rusqlite::Connection::transaction`,
/// `rusqlite::Connection::execute_batch` and `rusqlite::Transaction::commit`:
/// runs the whole batch inside one transaction, so it either commits entirely
/// or, on any failure, rolls back when the transaction is dropped, leaving no
/// partial effects behind.
#[verifier::external_body]
pub(crate) fn apply_batch_in_transaction(
    conn: &mut rusqlite::Connection,
    sql: &str,
) -> Result<(), rusqlite::Error> {
    let tx = conn.transaction()?;
    tx.execute_batch(sql)?;
    tx.commit()
}

/// Relies on `rusqlite::Error::sqlite_error_code`: it reports the underlying
/// SQLite primary result code, and `ErrorCode::NotADatabase` (SQLITE_NOTADB)
/// means the file is not a valid database container.
#[verifier::external_body]
pub(crate) fn is_not_a_container_error(e: &rusqlite::Error) -> bool {
    e.sqlite_error_code() == Some(rusqlite::ffi::ErrorCode::NotADatabase)
}

} // verus!
