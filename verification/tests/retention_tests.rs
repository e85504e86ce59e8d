use backup_engine::record::ArchiveRecord;
use backup_engine::retention::{select_expired, evict_decisions, DeleteOutcome};

fn rec(id: i64, path: &str, created_at: i64) -> ArchiveRecord {
    ArchiveRecord {
        id,
        source_path: path.to_string(),
        archive_id: format!("token-{}", id),
        created_at,
    }
}

const HOUR: i64 = 3600;

#[test]
fn age_boundary_selects_only_older() {
    let now: i64 = 1_700_000_000;
    let all = vec![
        rec(1, "/data", now - 25 * HOUR),
        rec(2, "/data", now - 23 * HOUR),
    ];
    let picked = select_expired(&all, now, Some(24 * HOUR as u64), None);
    assert_eq!(picked.len(), 1);
    assert_eq!(picked[0].id, 1);
}

#[test]
fn age_boundary_exact_age_is_kept() {
    let now: i64 = 1_700_000_000;
    let all = vec![rec(1, "/data", now - 24 * HOUR)];
    let picked = select_expired(&all, now, Some(24 * HOUR as u64), None);
    assert_eq!(picked.len(), 0);
}

#[test]
fn count_boundary_drops_exactly_two_oldest() {
    let now: i64 = 1_700_000_000;
    let all = vec![
        rec(1, "/data", now - 50),
        rec(2, "/data", now - 40),
        rec(3, "/data", now - 30),
        rec(4, "/data", now - 20),
        rec(5, "/data", now - 10),
    ];
    let picked = select_expired(&all, now, None, Some(3));
    assert_eq!(picked.len(), 2);
    assert_eq!(picked[0].id, 1);
    assert_eq!(picked[1].id, 2);
}

#[test]
fn count_policy_ignores_other_source_paths() {
    let now: i64 = 1_700_000_000;
    let all = vec![
        rec(1, "/data", now - 50),
        rec(2, "/other", now - 40),
        rec(3, "/data", now - 30),
        rec(4, "/other", now - 20),
    ];
    let picked = select_expired(&all, now, None, Some(1));
    assert_eq!(picked.len(), 2);
    assert_eq!(picked[0].id, 1);
    assert_eq!(picked[1].id, 2);
}

#[test]
fn union_of_age_and_count_candidates() {
    let now: i64 = 1_700_000_000;
    // id 1 is both old and beyond the count; id 2 only beyond the count;
    // id 3 kept.
    let all = vec![
        rec(1, "/data", now - 100 * HOUR),
        rec(2, "/data", now - 2 * HOUR),
        rec(3, "/data", now - HOUR),
    ];
    let picked = select_expired(&all, now, Some(24 * HOUR as u64), Some(1));
    assert_eq!(picked.len(), 2);
    assert_eq!(picked[0].id, 1);
    assert_eq!(picked[1].id, 2);
}

#[test]
fn no_policy_selects_nothing() {
    let now: i64 = 1_700_000_000;
    let all = vec![rec(1, "/data", 0), rec(2, "/data", now)];
    let picked = select_expired(&all, now, None, None);
    assert_eq!(picked.len(), 0);
}

#[test]
fn created_at_tie_broken_by_id() {
    let now: i64 = 1_700_000_000;
    let all = vec![rec(1, "/data", now - 10), rec(2, "/data", now - 10)];
    let picked = select_expired(&all, now, None, Some(1));
    assert_eq!(picked.len(), 1);
    assert_eq!(picked[0].id, 1);
}

#[test]
fn second_eviction_pass_removes_nothing() {
    let now: i64 = 1_700_000_000;
    let all = vec![
        rec(1, "/data", now - 50 * HOUR),
        rec(2, "/data", now - 30 * HOUR),
        rec(3, "/data", now - 2 * HOUR),
        rec(4, "/data", now - HOUR),
    ];
    let max_age = Some(24 * HOUR as u64);
    let max_backups = Some(1);
    let picked = select_expired(&all, now, max_age, max_backups);
    assert_eq!(picked.len(), 3);
    let survivors: Vec<ArchiveRecord> = all
        .iter()
        .filter(|r| picked.iter().all(|p| p.id != r.id))
        .map(|r| r.duplicate())
        .collect();
    assert_eq!(survivors.len(), 1);
    let second = select_expired(&survivors, now, max_age, max_backups);
    assert_eq!(second.len(), 0);
}

#[test]
fn missing_file_still_removes_record() {
    let now: i64 = 1_700_000_000;
    let cands = vec![
        rec(1, "/data", now - 30),
        rec(2, "/data", now - 20),
        rec(3, "/data", now - 10),
    ];
    let outcomes = vec![
        DeleteOutcome::Deleted,
        DeleteOutcome::NotFound,
        DeleteOutcome::Deleted,
    ];
    let rep = evict_decisions(&cands, &outcomes);
    assert_eq!(rep.remove, vec![1, 2, 3]);
    assert_eq!(rep.unresolved.len(), 0);
}

#[test]
fn one_failure_does_not_stop_the_batch() {
    let now: i64 = 1_700_000_000;
    let cands = vec![
        rec(1, "/data", now - 30),
        rec(2, "/data", now - 20),
        rec(3, "/data", now - 10),
    ];
    let outcomes = vec![
        DeleteOutcome::Deleted,
        DeleteOutcome::Failed,
        DeleteOutcome::NotFound,
    ];
    let rep = evict_decisions(&cands, &outcomes);
    assert_eq!(rep.remove, vec![1, 3]);
    assert_eq!(rep.unresolved, vec![2]);
}
