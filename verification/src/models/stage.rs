//! A single stage (job) of a pipeline run.

use vstd::prelude::*;
use crate::instant::{is_instant, now_millis};

verus! {

/// Status of a stage execution.
#[derive(Debug, Clone, Copy, PartialEq, Eq, Structural)]
pub enum StageStatus {
    /// Stage completed successfully
    Success,
    /// Stage is currently running
    Running,
    /// Stage failed
    Failed,
    /// Stage is queued/pending
    Pending,
    /// Stage was skipped
    Skipped,
}

/// Display name of a stage status.
pub open spec fn stage_status_text(s: StageStatus) -> Seq<char> {
    match s {
        StageStatus::Success => "Success"@,
        StageStatus::Running => "Running"@,
        StageStatus::Failed => "Failed"@,
        StageStatus::Pending => "Pending"@,
        StageStatus::Skipped => "Skipped"@,
    }
}

/// Symbol of a stage status.
pub open spec fn stage_status_symbol(s: StageStatus) -> Seq<char> {
    match s {
        StageStatus::Success => "✓"@,
        StageStatus::Running => "●"@,
        StageStatus::Failed => "✗"@,
        StageStatus::Pending => "○"@,
        StageStatus::Skipped => "⊙"@,
    }
}

impl StageStatus {
    /// Returns true if the stage is in a terminal state.
    pub fn is_terminal(&self) -> (r: bool)
        ensures
            r == (*self == StageStatus::Success || *self == StageStatus::Failed || *self
                == StageStatus::Skipped),
    {
        match self {
            StageStatus::Success | StageStatus::Failed | StageStatus::Skipped => true,
            _ => false,
        }
    }

    /// Returns true if the stage is active (running or pending).
    pub fn is_active(&self) -> (r: bool)
        ensures
            r == (*self == StageStatus::Running || *self == StageStatus::Pending),
    {
        match self {
            StageStatus::Running | StageStatus::Pending => true,
            _ => false,
        }
    }

    /// Returns true if the stage succeeded.
    pub fn is_success(&self) -> (r: bool)
        ensures
            r == (*self == StageStatus::Success),
    {
        match self {
            StageStatus::Success => true,
            _ => false,
        }
    }

    /// Returns true if the stage failed.
    pub fn is_failure(&self) -> (r: bool)
        ensures
            r == (*self == StageStatus::Failed),
    {
        match self {
            StageStatus::Failed => true,
            _ => false,
        }
    }

    /// Returns a string representation of the status.
    pub fn as_str(&self) -> (r: &'static str)
        ensures
            r@ == stage_status_text(*self),
    {
        match self {
            StageStatus::Success => "Success",
            StageStatus::Running => "Running",
            StageStatus::Failed => "Failed",
            StageStatus::Pending => "Pending",
            StageStatus::Skipped => "Skipped",
        }
    }

    /// Returns a symbol representing the status.
    pub fn emoji(&self) -> (r: &'static str)
        ensures
            r@ == stage_status_symbol(*self),
    {
        match self {
            StageStatus::Success => "✓",
            StageStatus::Running => "●",
            StageStatus::Failed => "✗",
            StageStatus::Pending => "○",
            StageStatus::Skipped => "⊙",
        }
    }
}

/// A single stage/job in a pipeline.  Times are millisecond instants and
/// durations are millisecond counts (see `crate::instant`).
#[derive(Debug, Clone)]
pub struct Stage {
    /// Unique identifier for this stage
    pub id: String,
    /// Name of the stage/job
    pub name: String,
    /// Current status of the stage
    pub status: StageStatus,
    /// When the stage started (None if not started yet)
    pub started_at: Option<i64>,
    /// When the stage finished (None if still running or not started)
    pub finished_at: Option<i64>,
    /// Duration of the stage execution
    pub duration: Option<i64>,
    /// URL to view the stage logs
    pub log_url: Option<String>,
    /// Number of the stage in the pipeline sequence
    pub order: usize,
}

/// Whether an optional time is absent or an instant.
pub open spec fn opt_instant(t: Option<i64>) -> bool {
    t matches Some(v) ==> is_instant(v)
}

/// The duration of a stage when the current time is `now`: from start to
/// finish, or from start to `now` while it is running.
pub open spec fn stage_duration(s: Stage, now: i64) -> Option<int> {
    match (s.started_at, s.finished_at) {
        (Some(start), Some(end)) => Some(end - start),
        (Some(start), None) => if s.status == StageStatus::Running {
            Some(now - start)
        } else {
            None
        },
        _ => None,
    }
}

impl Stage {
    /// The stage's times are instants.
    pub open spec fn wf(&self) -> bool {
        opt_instant(self.started_at) && opt_instant(self.finished_at)
    }

    /// The duration of the stage, with `now` as the current time.
    pub fn duration_at(&self, now: i64) -> (r: Option<i64>)
        requires
            self.wf(),
            is_instant(now),
        ensures
            match stage_duration(*self, now) {
                Some(d) => r == Some(d as i64),
                None => r is None,
            },
    {
        match (self.started_at, self.finished_at) {
            (Some(start), Some(end)) => Some(end - start),
            (Some(start), None) => {
                if self.status == StageStatus::Running {
                    Some(now - start)
                } else {
                    None
                }
            },
            _ => None,
        }
    }

    /// Calculate the duration of the stage; a running stage is measured up to
    /// the current time.
    pub fn calculate_duration(&self) -> (r: Option<i64>)
        requires
            self.wf(),
        ensures
            exists|now: i64|
                is_instant(now) && match #[trigger] stage_duration(*self, now) {
                    Some(d) => r == Some(d as i64),
                    None => r is None,
                },
    {
        let now = now_millis();
        let r = self.duration_at(now);
        assert(match stage_duration(*self, now) {
            Some(d) => r == Some(d as i64),
            None => r is None,
        });
        r
    }

    /// Create a new pending stage.
    pub fn new_pending(id: String, name: String, order: usize) -> (s: Self)
        ensures
            s.id == id,
            s.name == name,
            s.order == order,
            s.status == StageStatus::Pending,
            s.started_at is None,
            s.finished_at is None,
            s.duration is None,
            s.log_url is None,
    {
        Stage {
            id,
            name,
            status: StageStatus::Pending,
            started_at: None,
            finished_at: None,
            duration: None,
            log_url: None,
            order,
        }
    }

    /// Create a new running stage.
    pub fn new_running(id: String, name: String, order: usize, started_at: i64) -> (s: Self)
        ensures
            s.id == id,
            s.name == name,
            s.order == order,
            s.status == StageStatus::Running,
            s.started_at == Some(started_at),
            s.finished_at is None,
            s.duration is None,
            s.log_url is None,
    {
        Stage {
            id,
            name,
            status: StageStatus::Running,
            started_at: Some(started_at),
            finished_at: None,
            duration: None,
            log_url: None,
            order,
        }
    }
}

} // verus!
