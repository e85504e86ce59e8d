//! The error taxonomy of the engine.

use vstd::prelude::*;

verus! {

/// Every failure the engine can surface, by kind.
///
/// - `Config`: a malformed or missing directory spec; fatal at startup.
/// - `Path`: the input root is missing or unreadable; fatal to one job run.
/// - `Io`: an archive write or file deletion failed; the job run fails and
///   the next scheduled firing is the only retry.
/// - `Store`: the metadata store was unreachable or rejected a statement;
///   the current job's pipeline stops at the point of failure.
#[derive(Clone, Copy, PartialEq, Eq, Structural, Debug)]
pub enum BackupError {
    Config,
    Path,
    Io,
    Store,
}

impl BackupError {
    /// A short human-readable label for this error kind.
    pub fn message(&self) -> (m: &'static str)
        ensures
            *self is Config ==> m@ == "configuration error"@,
            *self is Path ==> m@ == "input path missing or unreadable"@,
            *self is Io ==> m@ == "archive write or file deletion failed"@,
            *self is Store ==> m@ == "metadata store failure"@,
    {
        match self {
            BackupError::Config => "configuration error",
            BackupError::Path => "input path missing or unreadable",
            BackupError::Io => "archive write or file deletion failed",
            BackupError::Store => "metadata store failure",
        }
    }
}

} // verus!
