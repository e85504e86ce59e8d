//! A single-host archival and retention engine.
//!
//! The engine periodically archives configured directory trees into
//! compressed, uniquely named snapshot files, records each archive's
//! provenance in a durable metadata store, and enforces an age and/or
//! count retention policy. This crate holds everything the jobs decide and
//! compute: walking a directory snapshot into its list of regular files,
//! planning one archive with its deterministic file name, the record model
//! and store access, selecting expired records, the per-candidate eviction
//! decisions that stay consistent with the file system under partial
//! failure, and the per-directory non-overlap guard of the job scheduler.

pub mod archiver;
pub mod errors;
pub mod fs_model;
pub mod naming;
pub mod record;
pub mod retention;
pub mod scheduler;
pub mod store;
