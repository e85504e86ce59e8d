//! Building one archive: the plan, the in-memory container, and the fresh
//! identity (timestamp and token) of a snapshot.
//!
//! The archive job is all-or-nothing: the whole file set of the snapshot
//! goes into one container, the container file must be durably written
//! before the record is inserted, and a failure anywhere fails the job run.

use vstd::prelude::*;
use crate::errors::BackupError;
use crate::fs_model::{DirEntry, FileEntry, files_under, view_files, walk_dir};
use crate::naming::archive_path;
use crate::naming::format_archive_path;
use crate::record::ArchiveRecord;

verus! {

/// Everything one archive job must write: the full path of the archive
/// file, the entries to put into it, and the record to insert into the
/// store once the file is on disk.
pub struct ArchivePlan {
    pub file_path: String,
    pub entries: Vec<FileEntry>,
    pub record: ArchiveRecord,
}

/// Builds the plan for one archive of the snapshot `root` of the directory
/// at canonical path `source`, made at `created_at` with the token
/// `archive_id`: exactly one record, a file path following the naming
/// formula, and one entry per regular file of the snapshot, named by its
/// path relative to the root, bytes unchanged.
pub fn plan_archive(
    source: &str,
    output: &str,
    root: &Vec<DirEntry>,
    created_at: i64,
    archive_id: String,
) -> (p: ArchivePlan)
    ensures
        p.file_path@ == archive_path(output@, created_at as int, archive_id@),
        view_files(p.entries@) == files_under(root@, Seq::<char>::empty()),
        p.record.id == 0,
        p.record.source_path@ == source@,
        p.record.archive_id@ == archive_id@,
        p.record.created_at == created_at,
{
    let file_path = format_archive_path(output, created_at, archive_id.as_str());
    let entries = walk_dir(root);
    let record = ArchiveRecord { id: 0, source_path: String::from_str(source), archive_id, created_at };
    ArchivePlan { file_path, entries, record }
}

/// Relies on chrono::Local::now and chrono::DateTime::timestamp: the
/// current instant as whole seconds since the Unix epoch. The value
/// depends on the clock, so nothing is promised of it; the call does not
/// return normally on a system whose clock reads before the Unix epoch.
#[verifier::external_body]
fn current_timestamp() -> (t: i64) {
    chrono::Local::now().timestamp()
}

/// Relies on uuid::Uuid::new_v4 and its Display impl: a fresh random
/// version-4 UUID in the hyphenated form, which is always 36 characters,
/// each a lowercase hexadecimal digit or a hyphen. Which UUID comes out
/// depends on the entropy source, so nothing more is promised; the call
/// does not return normally if the operating system's randomness source
/// fails.
#[verifier::external_body]
fn fresh_archive_id() -> (id: String)
    ensures
        id@.len() == 36,
        forall|i: int|
            0 <= i < 36 ==> ('0' <= #[trigger] id@[i] <= '9' || 'a' <= id@[i] <= 'f' || id@[i]
                == '-'),
{
    uuid::Uuid::new_v4().to_string()
}

/// Builds the plan for one archive of `root` captured now, under a fresh
/// token: the one step of the job pipeline that stamps identity onto a
/// snapshot.
pub fn new_archive_plan(source: &str, output: &str, root: &Vec<DirEntry>) -> (p: ArchivePlan)
    ensures
        p.file_path@ == archive_path(output@, p.record.created_at as int, p.record.archive_id@),
        view_files(p.entries@) == files_under(root@, Seq::<char>::empty()),
        p.record.id == 0,
        p.record.source_path@ == source@,
        p.record.archive_id@.len() == 36,
{
    let created_at = current_timestamp();
    let archive_id = fresh_archive_id();
    plan_archive(source, output, root, created_at, archive_id)
}

/// An archive container being written in memory. The writer itself is a
/// zip::ZipWriter over an in-memory buffer and is opaque here; the trusted
/// wrappers below say how its contents grow.
#[verifier::external_body]
pub struct ArchiveBuilder {
    writer: zip::ZipWriter<std::io::Cursor<Vec<u8>>>,
}

/// The entries (name, bytes) so far written into an in-memory archive
/// container, in order.
pub uninterp spec fn zip_contents(w: ArchiveBuilder) -> Seq<(Seq<char>, Seq<u8>)>;

/// The limits under which the archive library accepts one entry into an
/// in-memory container: the name within the container's 16-bit name-length
/// field even at four bytes per character, and the data far enough below
/// the container's 32-bit size fields that its compressed form fits too
/// (compression can exceed its input by a few bytes per block, always well
/// under the two megabytes of slack left here).
pub open spec fn entry_fits(name: Seq<char>, data: Seq<u8>) -> bool {
    name.len() <= 16383 && data.len() <= 0xFFE00000
}

/// Every entry recorded in `s` is within the container's limits.
pub open spec fn entries_fit(s: Seq<(Seq<char>, Seq<u8>)>) -> bool {
    forall|i: int| 0 <= i < s.len() ==> entry_fits((#[trigger] s[i]).0, s[i].1)
}

/// No entry recorded in `s` is named `name`.
pub open spec fn name_is_fresh(s: Seq<(Seq<char>, Seq<u8>)>, name: Seq<char>) -> bool {
    forall|i: int| 0 <= i < s.len() ==> (#[trigger] s[i]).0 != name
}

/// Relies on zip::ZipWriter::new: a writer over a fresh in-memory buffer
/// holds no entries yet.
#[verifier::external_body]
fn zip_writer_new() -> (w: ArchiveBuilder)
    ensures
        zip_contents(w) == Seq::<(Seq<char>, Seq<u8>)>::empty(),
{
    ArchiveBuilder { writer: zip::ZipWriter::new(std::io::Cursor::new(Vec::new())) }
}

/// Relies on zip::ZipWriter::start_file and std::io::Write::write_all: on
/// success the container gains exactly one entry with this name and these
/// bytes, deflate-compressed. Writing into the in-memory buffer itself
/// cannot fail; per the library's source the call fails only for a name
/// already in the container, a name over the container's 16-bit name
/// field, or an entry crossing its 32-bit size fields — so on a fresh name
/// within the limits, over a container whose recorded entries are within
/// the limits, it succeeds. On failure nothing is promised and the caller
/// abandons the writer.
#[verifier::external_body]
fn zip_add_entry(w: &mut ArchiveBuilder, name: &str, data: &Vec<u8>) -> (ok: bool)
    ensures
        ok ==> zip_contents(*final(w)) == zip_contents(*old(w)).push((name@, data@)),
        entries_fit(zip_contents(*old(w))) && name_is_fresh(zip_contents(*old(w)), name@)
            && entry_fits(name@, data@) ==> ok,
{
    let opts = zip::write::SimpleFileOptions::default().compression_method(
        zip::CompressionMethod::Deflated,
    );
    if w.writer.start_file(name, opts).is_err() {
        return false;
    }
    std::io::Write::write_all(&mut w.writer, data).is_ok()
}

/// Relies on zip::ZipWriter::finish: on success the returned bytes are the
/// finalized, fully flushed container of the entries written so far. Per
/// the library's source, finalizing into the in-memory buffer fails only
/// when a recorded entry's compressed size crosses the container's 32-bit
/// size fields, which cannot happen while every recorded entry is within
/// the limits.
#[verifier::external_body]
fn zip_finish(w: ArchiveBuilder) -> (r: Option<Vec<u8>>)
    ensures
        entries_fit(zip_contents(w)) ==> r is Some,
{
    match w.writer.finish() {
        Ok(cursor) => Some(cursor.into_inner()),
        Err(_) => None,
    }
}

/// The (name, bytes) pairs of the planned entries, in plan order.
pub open spec fn entry_pairs(s: Seq<FileEntry>) -> Seq<(Seq<char>, Seq<u8>)> {
    s.map_values(|f: FileEntry| (f.path@, f.data@))
}

/// A plan the encoder is guaranteed to accept: entry names pairwise
/// distinct and every entry within the container's limits.
pub open spec fn plan_encodable(s: Seq<FileEntry>) -> bool {
    &&& forall|i: int, j: int|
        0 <= i < j < s.len() ==> (#[trigger] s[i]).path@ != (#[trigger] s[j]).path@
    &&& forall|i: int| 0 <= i < s.len() ==> entry_fits((#[trigger] s[i]).path@, s[i].data@)
}

/// Encodes the planned entries into one compressed archive container held
/// in memory. Every planned entry is handed to the encoder in plan order
/// before the container is finalized; on a plan with pairwise-distinct
/// names whose entries are within the container's limits the result is
/// owed to be `Ok`, and any encoder failure on another plan surfaces as
/// `BackupError::Io` and fails the whole job run.
pub fn build_archive_bytes(entries: &Vec<FileEntry>) -> (r: Result<Vec<u8>, BackupError>)
    ensures
        r matches Err(e) ==> e == BackupError::Io,
        plan_encodable(entries@) ==> r is Ok,
{
    let mut w = zip_writer_new();
    let mut i: usize = 0;
    let mut failed = false;
    while i < entries.len() && !failed
        invariant
            0 <= i <= entries@.len(),
            !failed ==> zip_contents(w) == entry_pairs(entries@.subrange(0, i as int)),
            plan_encodable(entries@) ==> !failed,
        decreases entries@.len() - i + if failed { 0int } else { 1int },
    {
        let e = &entries[i];
        proof {
            if plan_encodable(entries@) {
                lemma_prefix_accepted(entries@, zip_contents(w), i as int);
            }
        }
        let ok = zip_add_entry(&mut w, e.path.as_str(), &e.data);
        if ok {
            proof {
                assert(zip_contents(w) =~= entry_pairs(entries@.subrange(0, i + 1)));
            }
        } else {
            failed = true;
        }
        i = i + 1;
    }
    if failed {
        Err(BackupError::Io)
    } else {
        proof {
            assert(entries@.subrange(0, entries@.len() as int) =~= entries@);
            if plan_encodable(entries@) {
                lemma_prefix_accepted(entries@, zip_contents(w), entries@.len() as int);
            }
        }
        match zip_finish(w) {
            Some(bytes) => Ok(bytes),
            None => Err(BackupError::Io),
        }
    }
}

/// While the container holds exactly the first `i` entries of an encodable
/// plan, its recorded entries are within the limits and, if an entry `i`
/// remains, its name is fresh and it fits: the encoder must accept it.
proof fn lemma_prefix_accepted(s: Seq<FileEntry>, recorded: Seq<(Seq<char>, Seq<u8>)>, i: int)
    requires
        plan_encodable(s),
        0 <= i <= s.len(),
        recorded == entry_pairs(s.subrange(0, i)),
    ensures
        entries_fit(recorded),
        i < s.len() ==> name_is_fresh(recorded, s[i].path@) && entry_fits(s[i].path@, s[i].data@),
{
    assert forall|k: int| 0 <= k < recorded.len() implies entry_fits(
        (#[trigger] recorded[k]).0,
        recorded[k].1,
    ) by {
        assert(recorded[k] == (s[k].path@, s[k].data@));
    }
    if i < s.len() {
        assert forall|k: int| 0 <= k < recorded.len() implies (#[trigger] recorded[k]).0
            != s[i].path@ by {
            assert(recorded[k] == (s[k].path@, s[k].data@));
        }
    }
}

} // verus!
