//! The durable metadata store: one SQLite table of archive records.
//!
//! Every access is one self-contained statement on one connection; no
//! transaction spans a suspension point of the surrounding job. What the
//! database file holds depends on the disk, so the trusted wrappers promise
//! nothing about the rows that come back; the engine's logic takes those
//! rows as arguments and is verified for every value of them.

use vstd::prelude::*;
use crate::errors::BackupError;
use crate::record::ArchiveRecord;

verus! {

#[verifier::external_type_specification]
#[verifier::external_body]
pub struct ExConnection(rusqlite::Connection);

#[verifier::external_type_specification]
#[verifier::external_body]
pub struct ExSqlError(rusqlite::Error);

/// Relies on rusqlite::Connection::open: opens the SQLite database file at
/// `path`, creating it if it is absent.
#[verifier::external_body]
fn open_connection(path: &str) -> (r: Result<rusqlite::Connection, rusqlite::Error>) {
    rusqlite::Connection::open(path)
}

/// Relies on rusqlite::Connection::open_in_memory: opens a fresh, empty
/// in-memory SQLite database.
#[verifier::external_body]
fn open_memory_connection() -> (r: Result<rusqlite::Connection, rusqlite::Error>) {
    rusqlite::Connection::open_in_memory()
}

/// Relies on rusqlite::Connection::execute: creates the backups table when
/// it is not there yet; Ok carries the number of rows changed.
#[verifier::external_body]
fn create_table(conn: &rusqlite::Connection) -> (r: Result<usize, rusqlite::Error>) {
    conn.execute(
        "CREATE TABLE IF NOT EXISTS backups (id INTEGER PRIMARY KEY AUTOINCREMENT, path TEXT NOT NULL, uuid TEXT NOT NULL, created_at INTEGER NOT NULL)",
        (),
    )
}

/// Relies on rusqlite::Connection::execute: inserts one row binding the
/// three record columns; Ok carries the number of rows changed.
#[verifier::external_body]
fn insert_row(
    conn: &rusqlite::Connection,
    source: &str,
    archive_id: &str,
    created_at: i64,
) -> (r: Result<usize, rusqlite::Error>) {
    conn.execute(
        "INSERT INTO backups (path, uuid, created_at) VALUES (?1, ?2, ?3)",
        (source, archive_id, created_at),
    )
}

/// Relies on rusqlite::Connection::prepare and Statement::query_map over a
/// SELECT by source path: each tuple is one row's (id, path, uuid,
/// created_at), in insertion order.
#[verifier::external_body]
fn query_rows(conn: &rusqlite::Connection, source: &str) -> (r: Result<
    Vec<(i64, String, String, i64)>,
    rusqlite::Error,
>) {
    let mut st = conn.prepare(
        "SELECT id, path, uuid, created_at FROM backups WHERE path = ?1 ORDER BY id",
    )?;
    let rows = st.query_map((source,), |row| {
        Ok((row.get(0)?, row.get(1)?, row.get(2)?, row.get(3)?))
    })?;
    rows.collect()
}

/// Relies on rusqlite::Connection::execute: deletes the row with this
/// store id, if any; Ok carries the number of rows changed.
#[verifier::external_body]
fn delete_row(conn: &rusqlite::Connection, id: i64) -> (r: Result<usize, rusqlite::Error>) {
    conn.execute("DELETE FROM backups WHERE id = ?1", (id,))
}

/// Turns raw store rows into archive records, field for field, keeping the
/// store's order.
pub fn rows_to_records(rows: Vec<(i64, String, String, i64)>) -> (out: Vec<ArchiveRecord>)
    ensures
        out@.len() == rows@.len(),
        forall|i: int|
            0 <= i < rows@.len() ==> {
                &&& (#[trigger] out@[i]).id == rows@[i].0
                &&& out@[i].source_path@ == rows@[i].1@
                &&& out@[i].archive_id@ == rows@[i].2@
                &&& out@[i].created_at == rows@[i].3
            },
{
    let mut out: Vec<ArchiveRecord> = Vec::new();
    let mut i: usize = 0;
    while i < rows.len()
        invariant
            0 <= i <= rows@.len(),
            out@.len() == i,
            forall|j: int|
                0 <= j < i ==> {
                    &&& (#[trigger] out@[j]).id == rows@[j].0
                    &&& out@[j].source_path@ == rows@[j].1@
                    &&& out@[j].archive_id@ == rows@[j].2@
                    &&& out@[j].created_at == rows@[j].3
                },
        decreases rows@.len() - i,
    {
        let row = &rows[i];
        out.push(
            ArchiveRecord {
                id: row.0,
                source_path: row.1.clone(),
                archive_id: row.2.clone(),
                created_at: row.3,
            },
        );
        i = i + 1;
    }
    out
}

/// A handle on the metadata store; the sole source of truth for which
/// archives exist and when they were made.
pub struct MetadataStore {
    conn: rusqlite::Connection,
}

impl MetadataStore {
    /// Opens the store at `path` and makes sure the backups table exists.
    /// Any store failure surfaces as `BackupError::Store`.
    pub fn open(path: &str) -> (r: Result<MetadataStore, BackupError>)
        ensures
            r matches Err(e) ==> e == BackupError::Store,
    {
        match open_connection(path) {
            Ok(conn) => match create_table(&conn) {
                Ok(_) => Ok(MetadataStore { conn }),
                Err(_) => Err(BackupError::Store),
            },
            Err(_) => Err(BackupError::Store),
        }
    }

    /// Opens a fresh in-memory store with an empty backups table: the
    /// substitute for a disk-backed store where no durability is wanted.
    pub fn open_in_memory() -> (r: Result<MetadataStore, BackupError>)
        ensures
            r matches Err(e) ==> e == BackupError::Store,
    {
        match open_memory_connection() {
            Ok(conn) => match create_table(&conn) {
                Ok(_) => Ok(MetadataStore { conn }),
                Err(_) => Err(BackupError::Store),
            },
            Err(_) => Err(BackupError::Store),
        }
    }

    /// Inserts one freshly made record. The caller must already have the
    /// archive file durably on disk: the file is written first, the record
    /// second, so a crash between the two leaves at worst an orphaned file
    /// and never a record without a file.
    pub fn insert(&self, rec: &ArchiveRecord) -> (r: Result<(), BackupError>)
        ensures
            r matches Err(e) ==> e == BackupError::Store,
    {
        match insert_row(
            &self.conn,
            rec.source_path.as_str(),
            rec.archive_id.as_str(),
            rec.created_at,
        ) {
            Ok(_) => Ok(()),
            Err(_) => Err(BackupError::Store),
        }
    }

    /// Every record for one source path, as archive records.
    pub fn records_for(&self, source: &str) -> (r: Result<Vec<ArchiveRecord>, BackupError>)
        ensures
            r matches Err(e) ==> e == BackupError::Store,
    {
        match query_rows(&self.conn, source) {
            Ok(rows) => Ok(rows_to_records(rows)),
            Err(_) => Err(BackupError::Store),
        }
    }

    /// Removes the record with this store id. Called for a candidate only
    /// after its backing file was deleted or found already gone.
    pub fn remove(&self, id: i64) -> (r: Result<(), BackupError>)
        ensures
            r matches Err(e) ==> e == BackupError::Store,
    {
        match delete_row(&self.conn, id) {
            Ok(_) => Ok(()),
            Err(_) => Err(BackupError::Store),
        }
    }
}

} // verus!
