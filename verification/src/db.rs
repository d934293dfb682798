//! File-identity and schema-versioning gate for an embedded SQLite store.
//!
//! Given a path, decide whether the file there is brand new (initialize it),
//! already one of ours (use it as-is), ours but at another schema version
//! (surfaced only through an explicit comparison), or a foreign file
//! (rejected untouched).

use std::cmp::Ordering;

use vstd::prelude::*;

use crate::engine;

verus! {

/// The App ID is a user-defined i32 value set in a SQLite database's headers.
/// We expect that if the `application_id` value is this one, it's a valid
/// file created by (or compatible with) our app.
pub const SQLITE_APP_ID: i32 = 0x27011990;

/// The user version is stored in an opaque 32-bit field in a SQLite
/// database's headers. Used to track the schema version.
///
/// Currently, the schema version is 1. We will bump the schema version for
/// each new minor+ release of the app.
pub const SQLITE_USER_VERSION: u32 = 1;

/// An application-identifier header value marks a file as ours when it is the
/// expected constant, or as eligible to become ours while it still carries
/// the container's default of zero. Anything else is a foreign file.
///
/// The zero case is deliberately ambiguous: a file created by another
/// application that never wrote its own identifier is also accepted. That
/// sharp edge is part of the protocol and must not be tightened silently.
pub open spec fn identifier_ok(id: int) -> bool {
    id == 0 || id == SQLITE_APP_ID as int
}

/// Decides whether an application-identifier header value is acceptable:
/// exactly the expected constant or the unset default of zero.
pub fn identifier_accepted(id: i32) -> (r: bool)
    ensures
        r <==> identifier_ok(id as int),
{
    id == 0 || id == SQLITE_APP_ID
}

/// Error type for errors returned by this module.
#[derive(Debug)]
pub enum DbError {
    /// Failed to open the database.
    OpenFailed { path: String, cause: rusqlite::Error },
    /// Failed to read a header or the catalog.
    ReadFailed { cause: rusqlite::Error },
    /// Failed to write changes.
    WriteFailed { cause: rusqlite::Error },
    /// The file is not a container of the expected storage format, or
    /// carries a foreign application identifier.
    InvalidFileError,
}

/// Rejects a foreign application identifier: succeeds on exactly the values
/// `identifier_ok` accepts, and any other value fails with
/// `InvalidFileError` — the file belongs to a different application.
pub fn check_identifier(id: i32) -> (r: Result<(), DbError>)
    ensures
        r is Ok <==> identifier_ok(id as int),
        !identifier_ok(id as int) ==> (r matches Err(e) && e is InvalidFileError),
{
    if identifier_accepted(id) {
        Ok(())
    } else {
        Err(DbError::InvalidFileError)
    }
}

/// Classifies a failed header or catalog read, given the engine's verdict on
/// whether the file is a valid container: not a container yields
/// `InvalidFileError` (the file is not a database of the expected format,
/// distinguished from an ordinary read failure), and any other failure is
/// `ReadFailed` carrying the engine's error.
pub fn classify_read_error(not_container: bool, e: rusqlite::Error) -> (r: DbError)
    ensures
        not_container ==> r is InvalidFileError,
        !not_container ==> (r matches DbError::ReadFailed { cause } && cause == e),
{
    if not_container {
        DbError::InvalidFileError
    } else {
        DbError::ReadFailed { cause: e }
    }
}

/// Wraps an engine failure as `OpenFailed`, preserving the path for
/// diagnostics; passes a success through unchanged.
pub fn into_open_failed<T>(r: Result<T, rusqlite::Error>, path: &str) -> (res: Result<
    T,
    DbError,
>)
    ensures
        res is Ok <==> r is Ok,
        r matches Ok(v) ==> (res matches Ok(w) && w == v),
        r matches Err(e) ==> (res matches Err(DbError::OpenFailed { path: p, cause }) && p@
            == path@ && cause == e),
{
    match r {
        Err(e) => Err(DbError::OpenFailed { path: path.to_owned(), cause: e }),
        Ok(v) => Ok(v),
    }
}

/// Wraps an engine failure as `ReadFailed`; passes a success through
/// unchanged.
pub fn into_read_failed<T>(r: Result<T, rusqlite::Error>) -> (res: Result<T, DbError>)
    ensures
        res is Ok <==> r is Ok,
        r matches Ok(v) ==> (res matches Ok(w) && w == v),
        r matches Err(e) ==> (res matches Err(DbError::ReadFailed { cause }) && cause == e),
{
    match r {
        Err(e) => Err(DbError::ReadFailed { cause: e }),
        Ok(v) => Ok(v),
    }
}

/// Wraps an engine failure as `WriteFailed`; passes a success through
/// unchanged.
pub fn into_write_failed<T>(r: Result<T, rusqlite::Error>) -> (res: Result<T, DbError>)
    ensures
        res is Ok <==> r is Ok,
        r matches Ok(v) ==> (res matches Ok(w) && w == v),
        r matches Err(e) ==> (res matches Err(DbError::WriteFailed { cause }) && cause == e),
{
    match r {
        Err(e) => Err(DbError::WriteFailed { cause: e }),
        Ok(v) => Ok(v),
    }
}

/// Wraps an engine failure as `InvalidFileError` when the engine reports
/// that the file is not a valid container, and as `ReadFailed` otherwise;
/// passes a success through unchanged. The engine's verdict itself comes
/// from the trusted `is_not_a_container_error`, so this contract promises
/// only the disjunction; the exact discrimination over that verdict is the
/// contract of `classify_read_error`, which this routes through.
pub fn into_invalid_or_read_failed<T>(r: Result<T, rusqlite::Error>) -> (res: Result<
    T,
    DbError,
>)
    ensures
        res is Ok <==> r is Ok,
        r matches Ok(v) ==> (res matches Ok(w) && w == v),
        r matches Err(e) ==> (res matches Err(DbError::InvalidFileError) || (res matches Err(
            DbError::ReadFailed { cause },
        ) && cause == e)),
{
    match r {
        Err(e) => {
            let not_container = engine::is_not_a_container_error(&e);
            Err(classify_read_error(not_container, e))
        },
        Ok(v) => Ok(v),
    }
}

/// The batch of statements that initializes a brand-new file: stamp the
/// application identifier, create the metadata table, record the creating
/// build's version with no "upgraded from" value, and set the schema
/// version. Run as one transaction, it is all-or-nothing.
pub open spec fn init_sql() -> Seq<char> {
    ("PRAGMA application_id = 654383504;

        CREATE TABLE app_metadata (
            id INTEGER PRIMARY KEY,
            version TEXT NOT NULL,
            upgraded_from TEXT
        );

        INSERT INTO app_metadata (version, upgraded_from) VALUES ('0.1.0', NULL);

        PRAGMA user_version = 1;")@
}

/// Returns the current database schema.
pub fn schema() -> (r: String)
    ensures
        r@ == init_sql(),
{
    let s: &str = "PRAGMA application_id = 654383504;

        CREATE TABLE app_metadata (
            id INTEGER PRIMARY KEY,
            version TEXT NOT NULL,
            upgraded_from TEXT
        );

        INSERT INTO app_metadata (version, upgraded_from) VALUES ('0.1.0', NULL);

        PRAGMA user_version = 1;";
    s.to_owned()
}

/// One tag per historical schema version. The upgrade dispatch matches on
/// it, so a future schema version is added as a new variant and a new match
/// arm, not a rewrite.
pub enum SchemaRevision {
    V1,
}

/// The schema-version header value that a file at the given revision
/// carries.
pub open spec fn revision_number(r: SchemaRevision) -> int {
    match r {
        SchemaRevision::V1 => 1,
    }
}

/// The newest schema revision this build understands; its number is the
/// schema-version header written at initialization.
pub fn current_revision() -> (r: SchemaRevision)
    ensures
        revision_number(r) == SQLITE_USER_VERSION as int,
{
    SchemaRevision::V1
}

/// Orders a stored schema-version header value against the version this
/// build understands.
pub fn version_ordering(stored: u32) -> (o: Ordering)
    ensures
        (o is Less <==> stored < SQLITE_USER_VERSION),
        (o is Equal <==> stored == SQLITE_USER_VERSION),
        (o is Greater <==> stored > SQLITE_USER_VERSION),
{
    if stored < SQLITE_USER_VERSION {
        Ordering::Less
    } else if stored == SQLITE_USER_VERSION {
        Ordering::Equal
    } else {
        Ordering::Greater
    }
}

/// Represents an on-disk file containing the library database.
///
/// `AppFile` is currently not `Sync`, but concurrent writes from multiple
/// objects are safe, thanks to SQLite concurrency support. Concurrent writes
/// are blocking, and may time out.
///
/// Currently, the timeout is set to 5000ms (rusqlite defaults).
#[derive(Debug)]
pub struct AppFile {
    /// A connection to the sqlite database.
    connection: rusqlite::Connection,
}

/// The version of the file is expected to match the current version and no
/// backward compatibility is enforced. When using an older or newer file
/// version, any operation may fail or return no data, while writes may fail,
/// lose data or even corrupt the file.
///
/// After opening, the file version should be checked and upgraded if needed.
impl AppFile {
    /// Tries creating an `AppFile` for the given path.
    ///
    /// If the file is new or empty, it will be initialized with the current
    /// format version, atomically: a racing opener either sees the file
    /// fully initialized or not at all.
    ///
    /// Returns an error if the file can't be read, initialized (write error)
    /// or is invalid (not a SQLite database or not with a matching app id).
    /// An `OpenFailed` error preserves the path it was asked to open.
    pub fn try_open(path: &str) -> (r: Result<AppFile, DbError>)
        ensures
            r matches Err(DbError::OpenFailed { path: p, cause }) ==> p@ == path@,
    {
        let mut connection = match into_open_failed(engine::open_connection(path), path) {
            Ok(c) => c,
            Err(e) => { return Err(e); },
        };

        let application_id = match into_invalid_or_read_failed(
            engine::read_application_id(&connection),
        ) {
            Ok(v) => v,
            Err(e) => { return Err(e); },
        };

        match check_identifier(application_id) {
            Ok(_accepted) => {},
            Err(e) => { return Err(e); },
        }

        // If there are no tables, this is a new/uninitialized database.
        let initialized = match into_invalid_or_read_failed(
            engine::any_table_exists(&connection),
        ) {
            Ok(v) => v,
            Err(e) => { return Err(e); },
        };

        if !initialized {
            let sql = schema();
            match into_write_failed(
                engine::apply_batch_in_transaction(&mut connection, sql.as_str()),
            ) {
                Ok(_done) => {},
                Err(e) => { return Err(e); },
            }
        }

        Ok(AppFile { connection })
    }

    /// Returns whether the version of the file matches the current version
    /// (Equal), is older (Less) or newer (Greater).
    ///
    /// Never mutates the file; the only error it can surface is a failed
    /// read of the version header.
    pub fn compare_version(&self) -> (r: Result<Ordering, DbError>)
        ensures
            r matches Err(e) ==> e is ReadFailed,
    {
        let stored = match into_read_failed(engine::read_user_version(&self.connection)) {
            Ok(v) => v,
            Err(e) => { return Err(e); },
        };
        Ok(version_ordering(stored))
    }

    /// Upgrades the file format to the current version (in place).
    ///
    /// Perform a manual copy of the file before the upgrade to avoid data
    /// loss. Calling this on a file already at the current version is a
    /// no-op; calling it on a newer file is not an error either — check
    /// `compare_version` first and decide.
    ///
    /// Always succeeds today, and performs no engine call at all, so the
    /// version header and everything else about the handle are left exactly
    /// as they were.
    pub fn upgrade(&mut self) -> (r: Result<(), DbError>)
        ensures
            r is Ok,
            *final(self) == *old(self),
    {
        match current_revision() {
            // Already the current revision: there is nothing to migrate.
            SchemaRevision::V1 => Ok(()),
        }
    }
}

} // verus!
