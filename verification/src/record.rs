//! The metadata record linking an archive to its source directory.

use vstd::prelude::*;

verus! {

/// One row of the metadata store: an archive's identity and provenance.
///
/// `id` is assigned by the store (zero until inserted), `source_path` is the
/// canonical absolute path of the archived directory, `archive_id` is an
/// opaque unique token, and `created_at` is the integer Unix timestamp
/// (seconds) captured when the archive was built.
///
/// No file path is stored: the archive's file name is recomputed from
/// `(created_at, archive_id)` by the naming formula, which is the only link
/// between a record and its backing file.
pub struct ArchiveRecord {
    pub id: i64,
    pub source_path: String,
    pub archive_id: String,
    pub created_at: i64,
}

/// The per-directory retention policy and schedule, already validated by the
/// configuration layer. `max_age` is in seconds; `None` means no limit in
/// that dimension.
pub struct DirectorySpec {
    pub name: String,
    pub schedule: String,
    pub max_backups: Option<u64>,
    pub max_age: Option<u64>,
    pub input_path: String,
    pub output_path: String,
}

impl ArchiveRecord {
    /// Clones a record field by field.
    pub fn duplicate(&self) -> (r: ArchiveRecord)
        ensures
            r == *self,
    {
        ArchiveRecord {
            id: self.id,
            source_path: self.source_path.clone(),
            archive_id: self.archive_id.clone(),
            created_at: self.created_at,
        }
    }
}

} // verus!
