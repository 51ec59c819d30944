//! A CI/CD pipeline run.

use vstd::prelude::*;
use vstd::string::*;
use super::stage::Stage;

verus! {

/// Status of a pipeline execution.
#[derive(Debug, Clone, Copy, PartialEq, Eq, Structural)]
pub enum PipelineStatus {
    /// Pipeline completed successfully
    Success,
    /// Pipeline is currently running
    Running,
    /// Pipeline failed
    Failed,
    /// Pipeline is queued/pending
    Pending,
    /// Pipeline was cancelled
    Cancelled,
    /// Pipeline was skipped
    Skipped,
}

/// Display name of a pipeline status.
pub open spec fn pipeline_status_text(s: PipelineStatus) -> Seq<char> {
    match s {
        PipelineStatus::Success => "Success"@,
        PipelineStatus::Running => "Running"@,
        PipelineStatus::Failed => "Failed"@,
        PipelineStatus::Pending => "Pending"@,
        PipelineStatus::Cancelled => "Cancelled"@,
        PipelineStatus::Skipped => "Skipped"@,
    }
}

/// Symbol of a pipeline status.
pub open spec fn pipeline_status_symbol(s: PipelineStatus) -> Seq<char> {
    match s {
        PipelineStatus::Success => "✓"@,
        PipelineStatus::Running => "●"@,
        PipelineStatus::Failed => "✗"@,
        PipelineStatus::Pending => "○"@,
        PipelineStatus::Cancelled => "⊘"@,
        PipelineStatus::Skipped => "⊙"@,
    }
}

/// Position of a status in the display order
/// Running → Pending → Failed → Success → Cancelled → Skipped.
pub open spec fn status_rank(s: PipelineStatus) -> int {
    match s {
        PipelineStatus::Running => 0,
        PipelineStatus::Pending => 1,
        PipelineStatus::Failed => 2,
        PipelineStatus::Success => 3,
        PipelineStatus::Cancelled => 4,
        PipelineStatus::Skipped => 5,
    }
}

/// The statuses in the order the pipeline list shows them:
/// Running → Pending → Failed → Success → Cancelled → Skipped.
pub open spec fn listed_status_order() -> Seq<PipelineStatus> {
    seq![
        PipelineStatus::Running,
        PipelineStatus::Pending,
        PipelineStatus::Failed,
        PipelineStatus::Success,
        PipelineStatus::Cancelled,
        PipelineStatus::Skipped,
    ]
}

impl PipelineStatus {
    /// Returns true once the run has come to an end (succeeded, failed, was
    /// cancelled or skipped).
    pub fn is_terminal(&self) -> (r: bool)
        ensures
            r == !(*self == PipelineStatus::Running || *self == PipelineStatus::Pending),
    {
        match self {
            PipelineStatus::Running | PipelineStatus::Pending => false,
            _ => true,
        }
    }

    /// Returns a string representation of the status.
    pub fn as_str(&self) -> (r: &'static str)
        ensures
            r@ == pipeline_status_text(*self),
    {
        match self {
            PipelineStatus::Success => "Success",
            PipelineStatus::Running => "Running",
            PipelineStatus::Failed => "Failed",
            PipelineStatus::Pending => "Pending",
            PipelineStatus::Cancelled => "Cancelled",
            PipelineStatus::Skipped => "Skipped",
        }
    }

    /// Returns a symbol representing the status.
    pub fn emoji(&self) -> (r: &'static str)
        ensures
            r@ == pipeline_status_symbol(*self),
    {
        match self {
            PipelineStatus::Success => "✓",
            PipelineStatus::Running => "●",
            PipelineStatus::Failed => "✗",
            PipelineStatus::Pending => "○",
            PipelineStatus::Cancelled => "⊘",
            PipelineStatus::Skipped => "⊙",
        }
    }

    /// The position of the status in the display order.
    pub fn rank(&self) -> (r: u8)
        ensures
            r as int == status_rank(*self),
            r < listed_status_order().len(),
            listed_status_order()[r as int] == *self,
    {
        match self {
            PipelineStatus::Running => 0,
            PipelineStatus::Pending => 1,
            PipelineStatus::Failed => 2,
            PipelineStatus::Success => 3,
            PipelineStatus::Cancelled => 4,
            PipelineStatus::Skipped => 5,
        }
    }
}

/// Represents a CI/CD pipeline execution.  Times are millisecond instants
/// and durations millisecond counts (see `crate::instant`).
#[derive(Debug, Clone)]
pub struct Pipeline {
    /// Unique identifier for this pipeline run
    pub id: String,
    /// Human-readable name of the pipeline
    pub name: String,
    /// Source platform (e.g., "GitHub Actions", "GitLab CI", "Jenkins")
    pub source: String,
    /// Repository or project name
    pub repository: String,
    /// Branch name
    pub branch: String,
    /// Current status of the pipeline
    pub status: PipelineStatus,
    /// Build/run number
    pub build_number: u32,
    /// When the pipeline started
    pub started_at: i64,
    /// When the pipeline finished (None if still running)
    pub finished_at: Option<i64>,
    /// Duration of the pipeline execution
    pub duration: Option<i64>,
    /// Individual stages/jobs in the pipeline
    pub stages: Vec<Stage>,
    /// URL to view the pipeline in the CI/CD platform
    pub url: String,
    /// Commit SHA that triggered this pipeline
    pub commit_sha: String,
    /// Commit message
    pub commit_message: String,
    /// Author of the commit
    pub author: String,
}

/// The number of characters of a commit id the dashboard shows.
pub const SHORT_SHA_CHARS: usize = 7;

/// A commit id cut to its first `SHORT_SHA_CHARS` characters.
pub open spec fn short_sha(s: Seq<char>) -> Seq<char> {
    if s.len() <= SHORT_SHA_CHARS {
        s
    } else {
        s.take(SHORT_SHA_CHARS as int)
    }
}

/// The first line of a text: everything before its first `\n`.
pub open spec fn first_line(s: Seq<char>) -> Seq<char> {
    if exists|i: int| 0 <= i < s.len() && s[i] == '\n' {
        s.take(choose|i: int| 0 <= i < s.len() && s[i] == '\n' && forall|j: int| 0 <= j < i ==> s[j] != '\n')
    } else {
        s
    }
}

impl Pipeline {
    /// The commit id cut to its first `SHORT_SHA_CHARS` characters.
    pub fn short_commit_sha(&self) -> (r: String)
        ensures
            r@ == short_sha(self.commit_sha@),
    {
        let n = self.commit_sha.as_str().unicode_len();
        if n <= SHORT_SHA_CHARS {
            self.commit_sha.clone()
        } else {
            assert(self.commit_sha@.subrange(0, SHORT_SHA_CHARS as int) =~= self.commit_sha@.take(
                SHORT_SHA_CHARS as int,
            ));
            self.commit_sha.as_str().substring_char(0, SHORT_SHA_CHARS).to_owned()
        }
    }

    /// The first line of the commit message.
    pub fn short_commit_message(&self) -> (r: String)
        ensures
            r@ == first_line(self.commit_message@),
    {
        let m = self.commit_message.as_str();
        let n = m.unicode_len();
        let mut i: usize = 0;
        while i < n && m.get_char(i) != '\n'
            invariant
                i <= n,
                n == m@.len(),
                forall|j: int| 0 <= j < i ==> m@[j] != '\n',
            decreases n - i,
        {
            i = i + 1;
        }
        if i < n {
            proof {
                let c = choose|k: int| 0 <= k < m@.len() && m@[k] == '\n' && forall|j: int| 0 <= j < k ==> m@[j] != '\n';
                assert(0 <= i < m@.len() && m@[i as int] == '\n' && forall|j: int| 0 <= j < i ==> m@[j] != '\n');
                assert(c == i);
            }
            assert(m@.subrange(0, i as int) =~= m@.take(i as int));
        } else {
            assert(m@.subrange(0, i as int) =~= m@);
        }
        m.substring_char(0, i).to_owned()
    }
}

} // verus!
