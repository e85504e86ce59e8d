//! A snapshot model of a directory tree, and the recursive walker.
//!
//! The engine never follows symbolic links as directories: the layer that
//! captures a snapshot treats a symlink to a file as that file's bytes and
//! skips a symlink to a directory, so a snapshot is always a finite tree.
//! The walker enumerates every regular file of the snapshot, naming each by
//! its path relative to the walked root with `/` between components.

use vstd::prelude::*;

verus! {

/// One node of a directory snapshot: a regular file's bytes, or a
/// directory's named children.
pub enum FsNode {
    File { bytes: Vec<u8> },
    Dir { entries: Vec<DirEntry> },
}

/// A named child of a directory.
pub struct DirEntry {
    pub name: String,
    pub node: FsNode,
}

/// One enumerated regular file: its path relative to the walked root, and
/// its contents.
pub struct FileEntry {
    pub path: String,
    pub data: Vec<u8>,
}

/// The mathematical value of a `FileEntry`.
pub struct SpecFile {
    pub path: Seq<char>,
    pub data: Seq<u8>,
}

impl View for FileEntry {
    type V = SpecFile;

    open spec fn view(&self) -> SpecFile {
        SpecFile { path: self.path@, data: self.data@ }
    }
}

/// The values of a sequence of enumerated files.
pub open spec fn view_files(s: Seq<FileEntry>) -> Seq<SpecFile> {
    s.map_values(|f: FileEntry| f@)
}

/// The regular files reachable from the child `e`, each named
/// `prefix` + its path below `e`.
pub open spec fn files_of_entry(e: DirEntry, prefix: Seq<char>) -> Seq<SpecFile>
    decreases e, 0int,
{
    match e.node {
        FsNode::File { bytes } => seq![SpecFile { path: prefix + e.name@, data: bytes@ }],
        FsNode::Dir { entries } => files_under(entries@, prefix + e.name@ + seq!['/']),
    }
}

/// The regular files reachable from the children `entries`, in order of
/// appearance, depth first.
pub open spec fn files_under(entries: Seq<DirEntry>, prefix: Seq<char>) -> Seq<SpecFile>
    decreases entries, 1int,
{
    if entries.len() == 0 {
        Seq::empty()
    } else {
        files_under(entries.drop_last(), prefix) + files_of_entry(entries.last(), prefix)
    }
}

/// Clones a byte vector, keeping its bytes.
fn clone_bytes(v: &Vec<u8>) -> (r: Vec<u8>)
    ensures
        r@ == v@,
{
    let mut r: Vec<u8> = Vec::new();
    let mut i: usize = 0;
    while i < v.len()
        invariant
            0 <= i <= v@.len(),
            r@ == v@.subrange(0, i as int),
        decreases v@.len() - i,
    {
        r.push(v[i]);
        proof {
            assert(r@ =~= v@.subrange(0, i + 1));
        }
        i = i + 1;
    }
    proof {
        assert(r@ =~= v@);
    }
    r
}

/// Walks one child, appending its files to `out`.
fn walk_entry(e: &DirEntry, prefix: &String, out: &mut Vec<FileEntry>)
    ensures
        view_files(final(out)@) == view_files(old(out)@) + files_of_entry(*e, prefix@),
    decreases *e, 0int,
{
    match &e.node {
        FsNode::File { bytes } => {
            let mut path = prefix.clone();
            path.append(e.name.as_str());
            out.push(FileEntry { path, data: clone_bytes(bytes) });
            proof {
                assert(view_files(out@) =~= view_files(old(out)@) + files_of_entry(*e, prefix@));
            }
        },
        FsNode::Dir { entries } => {
            let mut sub_prefix = prefix.clone();
            sub_prefix.append(e.name.as_str());
            proof {
                reveal_strlit("/");
            }
            sub_prefix.append("/");
            proof {
                assert(sub_prefix@ =~= prefix@ + e.name@ + seq!['/']);
            }
            walk_entries(entries, &sub_prefix, out);
        },
    }
}

/// Walks a list of children in order, appending their files to `out`.
fn walk_entries(entries: &Vec<DirEntry>, prefix: &String, out: &mut Vec<FileEntry>)
    ensures
        view_files(final(out)@) == view_files(old(out)@) + files_under(entries@, prefix@),
    decreases entries@, 1int,
{
    let mut i: usize = 0;
    while i < entries.len()
        invariant
            0 <= i <= entries@.len(),
            view_files(out@) == view_files(old(out)@) + files_under(
                entries@.subrange(0, i as int),
                prefix@,
            ),
        decreases entries@.len() - i,
    {
        walk_entry(&entries[i], prefix, out);
        proof {
            assert(entries@.subrange(0, i + 1).drop_last() =~= entries@.subrange(0, i as int));
            assert(entries@.subrange(0, i + 1).last() == entries@[i as int]);
            assert(view_files(out@) =~= view_files(old(out)@) + files_under(
                entries@.subrange(0, i + 1),
                prefix@,
            ));
        }
        i = i + 1;
    }
    proof {
        assert(entries@.subrange(0, entries@.len() as int) =~= entries@);
    }
}

/// Enumerates every regular file of the snapshot rooted at `root`, depth
/// first, each named by its path relative to the root.
pub fn walk_dir(root: &Vec<DirEntry>) -> (files: Vec<FileEntry>)
    ensures
        view_files(files@) == files_under(root@, Seq::<char>::empty()),
{
    let mut out: Vec<FileEntry> = Vec::new();
    let prefix = String::new();
    walk_entries(root, &prefix, &mut out);
    proof {
        assert(view_files(out@) =~= files_under(root@, Seq::<char>::empty()));
    }
    out
}

} // verus!
