//! The per-directory job state machine and its non-overlap guard.
//!
//! The engine owns one schedule per configured directory. A firing starts
//! the archive-then-evict pipeline only when the directory's job is idle; a
//! firing that arrives while the previous run is still in flight is dropped,
//! not queued, so no two pipelines for one directory ever overlap. Jobs for
//! different directories are independent entries of the table and may run
//! concurrently with one another.

use vstd::prelude::*;

verus! {

/// The lifecycle of one directory's job: `Idle -> Running -> Idle`, with
/// `Stopped` terminal on shutdown.
#[derive(Clone, Copy, PartialEq, Eq, Structural, Debug)]
pub enum JobState {
    Idle,
    Running,
    Stopped,
}

/// What the scheduler does with one schedule firing.
#[derive(Clone, Copy, PartialEq, Eq, Structural, Debug)]
pub enum FireAction {
    StartPipeline,
    Skip,
}

/// How one job reacts to a schedule firing: only an idle job starts the
/// pipeline and becomes running; a running or stopped job drops the firing.
pub open spec fn fire_transition(st: JobState) -> (JobState, FireAction) {
    match st {
        JobState::Idle => (JobState::Running, FireAction::StartPipeline),
        JobState::Running => (JobState::Running, FireAction::Skip),
        JobState::Stopped => (JobState::Stopped, FireAction::Skip),
    }
}

/// How one job reacts to its pipeline finishing (successfully or not): a
/// running job returns to idle; any other state is unchanged.
pub open spec fn complete_transition(st: JobState) -> JobState {
    match st {
        JobState::Running => JobState::Idle,
        _ => st,
    }
}

/// The table of non-overlap guards, one `JobState` per configured
/// directory, indexed in configuration order.
pub struct Scheduler {
    pub states: Vec<JobState>,
}

impl Scheduler {
    /// A fresh scheduler: every directory's job starts out idle.
    pub fn new(directories: usize) -> (s: Scheduler)
        ensures
            s.states@.len() == directories,
            forall|i: int| 0 <= i < directories ==> s.states@[i] is Idle,
    {
        let mut states: Vec<JobState> = Vec::new();
        while states.len() < directories
            invariant
                states@.len() <= directories,
                forall|i: int| 0 <= i < states@.len() ==> states@[i] is Idle,
            decreases directories - states@.len(),
        {
            states.push(JobState::Idle);
        }
        Scheduler { states }
    }

    /// One schedule firing for directory `i`.
    ///
    /// A firing that arrives while the job is still running is a no-op: it
    /// is dropped rather than queued, so a slow archive never accumulates
    /// overlapping runs. Every other directory's state is untouched.
    pub fn fire(&mut self, i: usize) -> (action: FireAction)
        requires
            i < old(self).states@.len(),
        ensures
            final(self).states@ == old(self).states@.update(
                i as int,
                fire_transition(old(self).states@[i as int]).0,
            ),
            action == fire_transition(old(self).states@[i as int]).1,
    {
        let action = match self.states[i] {
            JobState::Idle => {
                self.states[i] = JobState::Running;
                FireAction::StartPipeline
            },
            JobState::Running => FireAction::Skip,
            JobState::Stopped => FireAction::Skip,
        };
        proof {
            assert(self.states@ =~= old(self).states@.update(
                i as int,
                fire_transition(old(self).states@[i as int]).0,
            ));
        }
        action
    }

    /// The pipeline for directory `i` finished: its job leaves `Running`.
    pub fn complete(&mut self, i: usize)
        requires
            i < old(self).states@.len(),
        ensures
            final(self).states@ == old(self).states@.update(
                i as int,
                complete_transition(old(self).states@[i as int]),
            ),
    {
        match self.states[i] {
            JobState::Running => {
                self.states[i] = JobState::Idle;
            },
            _ => {},
        }
        proof {
            assert(self.states@ =~= old(self).states@.update(
                i as int,
                complete_transition(old(self).states@[i as int]),
            ));
        }
    }

    /// Shutdown for directory `i`: the job is stopped for good.
    pub fn shutdown(&mut self, i: usize)
        requires
            i < old(self).states@.len(),
        ensures
            final(self).states@ == old(self).states@.update(i as int, JobState::Stopped),
    {
        self.states[i] = JobState::Stopped;
    }
}

/// Non-overlap: a schedule firing that arrives while the directory's job is
/// still running starts no second pipeline and changes no state, so at most
/// one pipeline per directory is ever in flight.
pub proof fn lemma_overlapping_fire_dropped()
    ensures
        fire_transition(JobState::Running) == (JobState::Running, FireAction::Skip),
{
}

} // verus!
