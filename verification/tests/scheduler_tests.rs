use backup_engine::scheduler::{FireAction, JobState, Scheduler};

#[test]
fn fresh_jobs_start_idle_and_fire() {
    let mut s = Scheduler::new(2);
    assert_eq!(s.states, vec![JobState::Idle, JobState::Idle]);
    assert_eq!(s.fire(0), FireAction::StartPipeline);
    assert_eq!(s.states, vec![JobState::Running, JobState::Idle]);
}

#[test]
fn overlapping_firing_is_dropped() {
    let mut s = Scheduler::new(1);
    assert_eq!(s.fire(0), FireAction::StartPipeline);
    // The pipeline is still running: a second firing is a no-op.
    assert_eq!(s.fire(0), FireAction::Skip);
    assert_eq!(s.states, vec![JobState::Running]);
}

#[test]
fn completion_returns_to_idle_and_reenables() {
    let mut s = Scheduler::new(1);
    assert_eq!(s.fire(0), FireAction::StartPipeline);
    s.complete(0);
    assert_eq!(s.states, vec![JobState::Idle]);
    assert_eq!(s.fire(0), FireAction::StartPipeline);
}

#[test]
fn directories_fire_independently() {
    let mut s = Scheduler::new(2);
    assert_eq!(s.fire(0), FireAction::StartPipeline);
    assert_eq!(s.fire(1), FireAction::StartPipeline);
    assert_eq!(s.fire(1), FireAction::Skip);
    assert_eq!(s.states, vec![JobState::Running, JobState::Running]);
}

#[test]
fn stopped_job_ignores_firings() {
    let mut s = Scheduler::new(1);
    s.shutdown(0);
    assert_eq!(s.states, vec![JobState::Stopped]);
    assert_eq!(s.fire(0), FireAction::Skip);
    s.complete(0);
    assert_eq!(s.states, vec![JobState::Stopped]);
}
