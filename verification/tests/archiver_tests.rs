use backup_engine::archiver::{build_archive_bytes, new_archive_plan, plan_archive};
use backup_engine::errors::BackupError;
use backup_engine::fs_model::{walk_dir, DirEntry, FileEntry, FsNode};

fn file(name: &str, bytes: &[u8]) -> DirEntry {
    DirEntry { name: name.to_string(), node: FsNode::File { bytes: bytes.to_vec() } }
}

fn dir(name: &str, entries: Vec<DirEntry>) -> DirEntry {
    DirEntry { name: name.to_string(), node: FsNode::Dir { entries } }
}

fn sample_tree() -> Vec<DirEntry> {
    vec![
        file("a.txt", b"hello"),
        dir(
            "sub",
            vec![file("b.bin", &[0u8, 1, 2, 250]), dir("deep", vec![file("c", b"")])],
        ),
        file("z.log", b"tail"),
    ]
}

#[test]
fn walker_enumerates_relative_paths_depth_first() {
    let files = walk_dir(&sample_tree());
    let got: Vec<(String, Vec<u8>)> =
        files.iter().map(|f| (f.path.clone(), f.data.clone())).collect();
    assert_eq!(
        got,
        vec![
            ("a.txt".to_string(), b"hello".to_vec()),
            ("sub/b.bin".to_string(), vec![0u8, 1, 2, 250]),
            ("sub/deep/c".to_string(), Vec::new()),
            ("z.log".to_string(), b"tail".to_vec()),
        ]
    );
}

#[test]
fn walker_of_empty_root_finds_nothing() {
    let files = walk_dir(&Vec::new());
    assert_eq!(files.len(), 0);
}

#[test]
fn one_plan_one_record_with_formula_name() {
    let plan = plan_archive("/src/data", "/backups", &sample_tree(), 1_700_000_000, "tok".to_string());
    assert_eq!(plan.file_path, "/backups/1700000000-tok.zip");
    assert_eq!(plan.record.id, 0);
    assert_eq!(plan.record.source_path, "/src/data");
    assert_eq!(plan.record.archive_id, "tok");
    assert_eq!(plan.record.created_at, 1_700_000_000);
    assert_eq!(plan.entries.len(), 4);
}

#[test]
fn fresh_plan_name_matches_pattern() {
    let plan = new_archive_plan("/src/data", "/backups", &sample_tree());
    assert_eq!(plan.record.archive_id.len(), 36);
    let expected = format!(
        "/backups/{}-{}.zip",
        plan.record.created_at, plan.record.archive_id
    );
    assert_eq!(plan.file_path, expected);
    let name = plan.file_path.strip_prefix("/backups/").unwrap();
    let digits = name.split('-').next().unwrap();
    assert!(!digits.is_empty() && digits.chars().all(|c| c.is_ascii_digit()));
    assert!(name.ends_with(".zip"));
}

#[test]
fn archive_round_trips_every_file() {
    let tree = sample_tree();
    let entries = walk_dir(&tree);
    let before: Vec<(String, Vec<u8>)> =
        entries.iter().map(|f| (f.path.clone(), f.data.clone())).collect();
    let bytes = build_archive_bytes(&entries).unwrap();
    let mut za = zip::ZipArchive::new(std::io::Cursor::new(bytes)).unwrap();
    assert_eq!(za.len(), before.len());
    for (path, data) in before {
        let mut f = za.by_name(&path).unwrap();
        let mut buf = Vec::new();
        std::io::Read::read_to_end(&mut f, &mut buf).unwrap();
        assert_eq!(buf, data, "contents differ for {}", path);
    }
}

#[test]
fn duplicate_entry_names_fail_with_io() {
    let entries = vec![
        FileEntry { path: "same.txt".to_string(), data: b"one".to_vec() },
        FileEntry { path: "same.txt".to_string(), data: b"two".to_vec() },
    ];
    match build_archive_bytes(&entries) {
        Err(e) => assert_eq!(e, BackupError::Io),
        Ok(_) => panic!("a plan with a duplicate entry name must be refused"),
    }
}

#[test]
fn fresh_token_is_hyphenated_lowercase_hex() {
    let plan = new_archive_plan("/src/data", "/backups", &Vec::new());
    assert!(plan
        .record
        .archive_id
        .chars()
        .all(|c| c.is_ascii_hexdigit() && !c.is_ascii_uppercase() || c == '-'));
    assert_eq!(plan.record.archive_id.chars().filter(|c| *c == '-').count(), 4);
}

#[test]
fn empty_archive_is_still_a_valid_container() {
    let entries: Vec<FileEntry> = Vec::new();
    let bytes = build_archive_bytes(&entries).unwrap();
    let za = zip::ZipArchive::new(std::io::Cursor::new(bytes)).unwrap();
    assert_eq!(za.len(), 0);
}
