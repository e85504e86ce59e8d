use backup_engine::errors::BackupError;
use backup_engine::record::ArchiveRecord;
use backup_engine::store::{rows_to_records, MetadataStore};

fn rec(path: &str, token: &str, created_at: i64) -> ArchiveRecord {
    ArchiveRecord {
        id: 0,
        source_path: path.to_string(),
        archive_id: token.to_string(),
        created_at,
    }
}

#[test]
fn insert_then_query_round_trips_fields() {
    let store = MetadataStore::open_in_memory().unwrap();
    store.insert(&rec("/data", "tok-1", 100)).unwrap();
    store.insert(&rec("/data", "tok-2", 200)).unwrap();
    store.insert(&rec("/other", "tok-3", 300)).unwrap();

    let records = store.records_for("/data").unwrap();
    assert_eq!(records.len(), 2);
    assert_eq!(records[0].source_path, "/data");
    assert_eq!(records[0].archive_id, "tok-1");
    assert_eq!(records[0].created_at, 100);
    assert_eq!(records[1].archive_id, "tok-2");
    assert_eq!(records[1].created_at, 200);
    assert!(records[0].id != records[1].id);
}

#[test]
fn query_of_unknown_path_is_empty() {
    let store = MetadataStore::open_in_memory().unwrap();
    store.insert(&rec("/data", "tok-1", 100)).unwrap();
    let records = store.records_for("/nowhere").unwrap();
    assert_eq!(records.len(), 0);
}

#[test]
fn remove_deletes_exactly_one_record() {
    let store = MetadataStore::open_in_memory().unwrap();
    store.insert(&rec("/data", "tok-1", 100)).unwrap();
    store.insert(&rec("/data", "tok-2", 200)).unwrap();
    let records = store.records_for("/data").unwrap();
    store.remove(records[0].id).unwrap();
    let left = store.records_for("/data").unwrap();
    assert_eq!(left.len(), 1);
    assert_eq!(left[0].archive_id, "tok-2");
}

#[test]
fn raw_rows_convert_field_for_field() {
    let rows = vec![
        (7i64, "/a".to_string(), "x".to_string(), 11i64),
        (9i64, "/b".to_string(), "y".to_string(), 22i64),
    ];
    let records = rows_to_records(rows);
    assert_eq!(records.len(), 2);
    assert_eq!(records[0].id, 7);
    assert_eq!(records[0].source_path, "/a");
    assert_eq!(records[0].archive_id, "x");
    assert_eq!(records[0].created_at, 11);
    assert_eq!(records[1].id, 9);
    assert_eq!(records[1].created_at, 22);
}

#[test]
fn unopenable_database_is_a_store_error() {
    let r = MetadataStore::open("/nonexistent-root/no-such-dir/backups.sqlite");
    match r {
        Err(e) => assert_eq!(e, BackupError::Store),
        Ok(_) => panic!("opening under a missing directory must fail"),
    }
}

#[test]
fn error_label_names_the_kind() {
    assert_eq!(BackupError::Store.message(), "metadata store failure");
    assert_eq!(BackupError::Io.message(), "archive write or file deletion failed");
    assert_eq!(BackupError::Path.message(), "input path missing or unreadable");
    assert_eq!(BackupError::Config.message(), "configuration error");
}
