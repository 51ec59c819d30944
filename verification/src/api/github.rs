//! GitHub Actions: the shapes of the API's answers that the dashboard
//! reads, how they map onto pipelines and stages, the request URLs and the
//! retry rules.

use vstd::prelude::*;
use crate::api::traits::{
    backoff_or_fail, backoff_step, http_status_text, is_server_error, is_success,
    rate_limit_or_fail, rate_limit_step, retry_step_ok, status_text, Attempt, AttemptView, RetryDecision,
    RetryDecisionView, RetryPolicy, RetryState,
};
use crate::config::SourceConfig;
use crate::instant::is_instant;
use crate::models::pipeline::{Pipeline, PipelineStatus};
use crate::models::stage::{opt_instant, Stage, StageStatus};
use crate::api::traits::LogEntry;
use crate::instant::{parse_rfc3339, rfc3339_parts};
use crate::text::{
    decimal, lines_spec, push_decimal, push_str, same_text, split_lines, string_views,
    trim_start_spec, trim_start_text,
};
use crate::utils::error::{ApiError, ApiErrorView, ArgusError, ArgusErrorView};

verus! {

/// A workflow run as the runs endpoint returns it.
#[derive(Debug, Clone)]
pub struct WorkflowRun {
    pub id: u64,
    pub name: Option<String>,
    pub head_branch: Option<String>,
    pub head_sha: String,
    /// "completed", "in_progress", "queued", "waiting"
    pub status: String,
    /// "success", "failure", "cancelled", "skipped", "timed_out", or none
    pub conclusion: Option<String>,
    pub created_at: i64,
    pub updated_at: i64,
    pub run_started_at: Option<i64>,
    pub html_url: String,
    pub display_title: Option<String>,
    pub actor: Option<Actor>,
    pub run_number: u64,
}

/// The user who triggered a run.
#[derive(Debug, Clone)]
pub struct Actor {
    pub login: String,
}

/// A job of a workflow run.
#[derive(Debug, Clone)]
pub struct Job {
    pub id: u64,
    pub name: String,
    /// "queued", "in_progress", "completed"
    pub status: String,
    pub conclusion: Option<String>,
    pub started_at: Option<i64>,
    pub completed_at: Option<i64>,
}

pub open spec fn opt_view(o: Option<String>) -> Option<Seq<char>> {
    match o {
        Some(s) => Some(s@),
        None => None,
    }
}

/// The text of an optional string, or `default` when it is absent.
pub open spec fn text_or(o: Option<String>, default: Seq<char>) -> Seq<char> {
    match o {
        Some(s) => s@,
        None => default,
    }
}

pub(crate) fn text_or_default(o: &Option<String>, default: &str) -> (r: String)
    ensures
        r@ == text_or(*o, default@),
{
    match o {
        Some(s) => s.clone(),
        None => default.to_owned(),
    }
}

fn opt_eq(o: &Option<String>, lit: &str) -> (r: bool)
    ensures
        r == (opt_view(*o) == Some(lit@)),
{
    match o {
        Some(s) => same_text(s.as_str(), lit),
        None => false,
    }
}

/// The pipeline status of a workflow run with this status and conclusion.
pub open spec fn run_status(status: Seq<char>, conclusion: Option<Seq<char>>) -> PipelineStatus {
    if status == "completed"@ {
        if conclusion == Some("success"@) {
            PipelineStatus::Success
        } else if conclusion == Some("failure"@) || conclusion == Some("timed_out"@) {
            PipelineStatus::Failed
        } else if conclusion == Some("cancelled"@) {
            PipelineStatus::Cancelled
        } else if conclusion == Some("skipped"@) {
            PipelineStatus::Skipped
        } else {
            PipelineStatus::Pending
        }
    } else if status == "in_progress"@ {
        PipelineStatus::Running
    } else {
        PipelineStatus::Pending
    }
}

/// The stage status of a job with this status and conclusion.
pub open spec fn job_status(status: Seq<char>, conclusion: Option<Seq<char>>) -> StageStatus {
    if status == "completed"@ {
        if conclusion == Some("success"@) {
            StageStatus::Success
        } else if conclusion == Some("failure"@) || conclusion == Some("timed_out"@) {
            StageStatus::Failed
        } else if conclusion == Some("cancelled"@) || conclusion == Some("skipped"@) {
            StageStatus::Skipped
        } else {
            StageStatus::Pending
        }
    } else if status == "in_progress"@ {
        StageStatus::Running
    } else {
        StageStatus::Pending
    }
}

/// What a GitHub job's status and conclusion mean for its stage: a
/// completed job is a failed stage exactly when it ended in "failure" or
/// "timed_out", a succeeded stage exactly when it ended in "success", a
/// skipped stage exactly when it was "cancelled" or "skipped"; a job is a
/// running stage exactly when it is "in_progress"; everything else is
/// pending.  A job and a run with the same status and conclusion agree on
/// failure, success and running.
pub proof fn lemma_job_status_meaning(status: Seq<char>, conclusion: Option<Seq<char>>)
    ensures
        job_status(status, conclusion) == StageStatus::Failed <==> status == "completed"@ && (
        conclusion == Some("failure"@) || conclusion == Some("timed_out"@)),
        job_status(status, conclusion) == StageStatus::Success <==> status == "completed"@
            && conclusion == Some("success"@),
        job_status(status, conclusion) == StageStatus::Skipped <==> status == "completed"@ && (
        conclusion == Some("cancelled"@) || conclusion == Some("skipped"@)),
        job_status(status, conclusion) == StageStatus::Running <==> status == "in_progress"@,
        (job_status(status, conclusion) == StageStatus::Failed) == (run_status(status, conclusion)
            == PipelineStatus::Failed),
        (job_status(status, conclusion) == StageStatus::Success) == (run_status(status, conclusion)
            == PipelineStatus::Success),
        (job_status(status, conclusion) == StageStatus::Running) == (run_status(status, conclusion)
            == PipelineStatus::Running),
{
    reveal_strlit("completed");
    reveal_strlit("in_progress");
    reveal_strlit("success");
    reveal_strlit("failure");
    reveal_strlit("timed_out");
    reveal_strlit("cancelled");
    reveal_strlit("skipped");
    assert("failure"@[0] != "success"@[0]);
    assert("timed_out"@[0] != "success"@[0]);
    assert("cancelled"@[0] != "success"@[0]);
    assert("cancelled"@[0] != "failure"@[0]);
    assert("cancelled"@[0] != "timed_out"@[0]);
    assert("skipped"@[1] != "success"@[1]);
    assert("skipped"@[0] != "failure"@[0]);
    assert("skipped"@[0] != "timed_out"@[0]);
    assert("completed"@[0] != "in_progress"@[0]);
}

/// Map a workflow-run status + conclusion pair to a `PipelineStatus`.
pub fn map_pipeline_status(status: &str, conclusion: &Option<String>) -> (r: PipelineStatus)
    ensures
        r == run_status(status@, opt_view(*conclusion)),
        r == PipelineStatus::Failed <==> status@ == "completed"@ && (opt_view(*conclusion) == Some(
            "failure"@,
        ) || opt_view(*conclusion) == Some("timed_out"@)),
        r == PipelineStatus::Success <==> status@ == "completed"@ && opt_view(*conclusion) == Some(
            "success"@,
        ),
        r == PipelineStatus::Running <==> status@ == "in_progress"@,
{
    proof {
        lemma_job_status_meaning(status@, opt_view(*conclusion));
    }
    if same_text(status, "completed") {
        if opt_eq(conclusion, "success") {
            PipelineStatus::Success
        } else if opt_eq(conclusion, "failure") || opt_eq(conclusion, "timed_out") {
            PipelineStatus::Failed
        } else if opt_eq(conclusion, "cancelled") {
            PipelineStatus::Cancelled
        } else if opt_eq(conclusion, "skipped") {
            PipelineStatus::Skipped
        } else {
            PipelineStatus::Pending
        }
    } else if same_text(status, "in_progress") {
        PipelineStatus::Running
    } else {
        PipelineStatus::Pending
    }
}

/// Map a job status + conclusion pair to a `StageStatus`.
pub fn map_stage_status(status: &str, conclusion: &Option<String>) -> (r: StageStatus)
    ensures
        r == job_status(status@, opt_view(*conclusion)),
        r == StageStatus::Failed <==> status@ == "completed"@ && (opt_view(*conclusion) == Some(
            "failure"@,
        ) || opt_view(*conclusion) == Some("timed_out"@)),
        r == StageStatus::Success <==> status@ == "completed"@ && opt_view(*conclusion) == Some(
            "success"@,
        ),
        r == StageStatus::Running <==> status@ == "in_progress"@,
{
    proof {
        lemma_job_status_meaning(status@, opt_view(*conclusion));
    }
    if same_text(status, "completed") {
        if opt_eq(conclusion, "success") {
            StageStatus::Success
        } else if opt_eq(conclusion, "failure") || opt_eq(conclusion, "timed_out") {
            StageStatus::Failed
        } else if opt_eq(conclusion, "cancelled") || opt_eq(conclusion, "skipped") {
            StageStatus::Skipped
        } else {
            StageStatus::Pending
        }
    } else if same_text(status, "in_progress") {
        StageStatus::Running
    } else {
        StageStatus::Pending
    }
}

/// The time between two optional instants, when both are known.
pub open spec fn span(a: Option<i64>, b: Option<i64>) -> Option<i64> {
    match (a, b) {
        (Some(s), Some(e)) => Some((e - s) as i64),
        _ => None,
    }
}

pub(crate) fn span_of(a: Option<i64>, b: Option<i64>) -> (r: Option<i64>)
    requires
        opt_instant(a),
        opt_instant(b),
    ensures
        r == span(a, b),
{
    match (a, b) {
        (Some(s), Some(e)) => Some(e - s),
        _ => None,
    }
}

impl WorkflowRun {
    /// The run's times are instants.
    pub open spec fn wf(&self) -> bool {
        is_instant(self.created_at) && is_instant(self.updated_at) && opt_instant(
            self.run_started_at,
        )
    }
}

impl Job {
    /// The job's times are instants.
    pub open spec fn wf(&self) -> bool {
        opt_instant(self.started_at) && opt_instant(self.completed_at)
    }
}

/// The page of a job on the web.
pub open spec fn job_page(owner: Seq<char>, repo: Seq<char>, run_id: u64, job_id: u64) -> Seq<char> {
    "https://github.com/"@ + owner + "/"@ + repo + "/actions/runs/"@ + decimal(run_id as nat)
        + "/jobs/"@ + decimal(job_id as nat)
}

/// The stage made of job `j`, the `i`-th of run `run_id`.
pub open spec fn job_stage(s: Stage, j: Job, i: int, owner: Seq<char>, repo: Seq<char>, run_id: u64) -> bool {
    &&& s.id@ == decimal(j.id as nat)
    &&& s.name@ == j.name@
    &&& s.status == job_status(j.status@, opt_view(j.conclusion))
    &&& s.started_at == j.started_at
    &&& s.finished_at == j.completed_at
    &&& s.duration == span(j.started_at, j.completed_at)
    &&& s.log_url matches Some(u) && u@ == job_page(owner, repo, run_id, j.id)
    &&& s.order == i
}

/// The pipeline made of run `run` of `owner/repo` with its `jobs`.
pub open spec fn run_pipeline(p: Pipeline, run: WorkflowRun, repo: Seq<char>, owner: Seq<char>, jobs: Seq<Job>) -> bool {
    let status = run_status(run.status@, opt_view(run.conclusion));
    let started = match run.run_started_at {
        Some(t) => t,
        None => run.created_at,
    };
    let finished = if status == PipelineStatus::Running || status == PipelineStatus::Pending {
        None
    } else {
        Some(run.updated_at)
    };
    &&& p.id@ == "github-"@ + repo + "-"@ + decimal(run.id as nat)
    &&& p.name@ == text_or(run.name, "Unnamed Workflow"@)
    &&& p.source@ == "GitHub Actions"@
    &&& p.repository@ == owner + "/"@ + repo
    &&& p.branch@ == text_or(run.head_branch, "unknown"@)
    &&& p.status == status
    &&& p.build_number == run.run_number as u32
    &&& p.started_at == started
    &&& p.finished_at == finished
    &&& p.duration == span(Some(started), finished)
    &&& p.stages@.len() == jobs.len()
    &&& forall|i: int|
        0 <= i < jobs.len() ==> job_stage(#[trigger] p.stages@[i], jobs[i], i, owner, repo, run.id)
    &&& p.url@ == run.html_url@
    &&& p.commit_sha@ == run.head_sha@
    &&& p.commit_message@ == text_or(run.display_title, "No commit message"@)
    &&& p.author@ == match run.actor {
        Some(a) => a.login@,
        None => "unknown"@,
    }
}

fn job_to_stage(j: &Job, i: usize, owner: &str, repo: &str, run_id: u64) -> (s: Stage)
    requires
        j.wf(),
    ensures
        job_stage(s, *j, i as int, owner@, repo@, run_id),
{
    let mut id = String::new();
    push_decimal(&mut id, j.id);
    let mut url = "https://github.com/".to_owned();
    push_str(&mut url, owner);
    push_str(&mut url, "/");
    push_str(&mut url, repo);
    push_str(&mut url, "/actions/runs/");
    push_decimal(&mut url, run_id);
    push_str(&mut url, "/jobs/");
    push_decimal(&mut url, j.id);
    assert(id@ =~= decimal(j.id as nat));
    assert(url@ =~= job_page(owner@, repo@, run_id, j.id));
    Stage {
        id,
        name: j.name.clone(),
        status: map_stage_status(j.status.as_str(), &j.conclusion),
        started_at: j.started_at,
        finished_at: j.completed_at,
        duration: span_of(j.started_at, j.completed_at),
        log_url: Some(url),
        order: i,
    }
}

/// Convert a workflow run and its jobs into a `Pipeline`.
pub fn run_to_pipeline(run: &WorkflowRun, repo: &str, owner: &str, jobs: Vec<Job>) -> (p: Pipeline)
    requires
        run.wf(),
        forall|i: int| 0 <= i < jobs@.len() ==> (#[trigger] jobs@[i]).wf(),
    ensures
        run_pipeline(p, *run, repo@, owner@, jobs@),
{
    let status = map_pipeline_status(run.status.as_str(), &run.conclusion);
    let started_at = match run.run_started_at {
        Some(t) => t,
        None => run.created_at,
    };
    let finished_at = if status.is_terminal() {
        Some(run.updated_at)
    } else {
        None
    };
    let duration = span_of(Some(started_at), finished_at);
    let mut stages: Vec<Stage> = Vec::new();
    let n = jobs.len();
    let mut i: usize = 0;
    while i < n
        invariant
            n == jobs@.len(),
            i <= n,
            stages@.len() == i,
            forall|k: int| 0 <= k < jobs@.len() ==> (#[trigger] jobs@[k]).wf(),
            forall|k: int|
                0 <= k < i ==> job_stage(#[trigger] stages@[k], jobs@[k], k, owner@, repo@, run.id),
        decreases n - i,
    {
        let s = job_to_stage(&jobs[i], i, owner, repo, run.id);
        stages.push(s);
        i = i + 1;
    }
    let mut id = "github-".to_owned();
    push_str(&mut id, repo);
    push_str(&mut id, "-");
    push_decimal(&mut id, run.id);
    let mut repository = owner.to_owned();
    push_str(&mut repository, "/");
    push_str(&mut repository, repo);
    let author = match &run.actor {
        Some(a) => a.login.clone(),
        None => "unknown".to_owned(),
    };
    assert(id@ =~= "github-"@ + repo@ + "-"@ + decimal(run.id as nat));
    assert(repository@ =~= owner@ + "/"@ + repo@);
    #[verifier::truncate]
    let build_number = run.run_number as u32;
    Pipeline {
        id,
        name: text_or_default(&run.name, "Unnamed Workflow"),
        source: "GitHub Actions".to_owned(),
        repository,
        branch: text_or_default(&run.head_branch, "unknown"),
        status,
        build_number,
        started_at,
        finished_at,
        duration,
        stages,
        url: run.html_url.clone(),
        commit_sha: run.head_sha.clone(),
        commit_message: text_or_default(&run.display_title, "No commit message"),
        author,
    }
}

// ---------------------------------------------------------------------------
// Requests

// ---------------------------------------------------------------------------
// Job logs
// ---------------------------------------------------------------------------

/// The timestamp and text of a log line.  GitHub starts each line with an
/// RFC 3339 timestamp followed by a space: where the text before the
/// line's first space reads as such a timestamp, the line gives that
/// time and the rest without leading white space; any other line is
/// kept whole, without a timestamp.
pub open spec fn stamped_parts(line: Seq<char>) -> (Option<(i64, u32)>, Seq<char>) {
    match line.index_of_first(' ') {
        Some(k) => match rfc3339_parts(line.take(k)) {
            Some(t) => (Some(t), trim_start_spec(line.skip(k))),
            None => (None, line),
        },
        None => (None, line),
    }
}

/// The entries of a GitHub job log: one per line, numbered from 1, each
/// with the parts `stamped_parts` gives.
pub open spec fn stamped_entries(raw: Seq<char>, r: Seq<LogEntry>) -> bool {
    &&& r.len() == lines_spec(raw).len()
    &&& forall|i: int|
        0 <= i < r.len() ==> (#[trigger] r[i]).line == i + 1 && (r[i].timestamp, r[i].text@)
            == stamped_parts(lines_spec(raw)[i])
}

fn stamped_entry(line: String, n: usize) -> (e: LogEntry)
    ensures
        e.line == n,
        (e.timestamp, e.text@) == stamped_parts(line@),
{
    let total = line.as_str().unicode_len();
    let mut k: usize = 0;
    while k < total && line.as_str().get_char(k) != ' '
        invariant
            k <= total,
            total == line@.len(),
            forall|j: int| 0 <= j < k ==> line@[j] != ' ',
        decreases total - k,
    {
        k = k + 1;
    }
    proof {
        line@.index_of_first_ensures(' ');
    }
    if k == total {
        assert(!line@.contains(' '));
        return LogEntry { line: n, text: line, timestamp: None };
    }
    assert(line@.index_of_first(' ') == Some(k as int)) by {
        line@.index_of_first_ensures(' ');
        assert(line@.contains(' ')) by {
            assert(line@[k as int] == ' ');
        }
    }
    let head = line.as_str().substring_char(0, k);
    assert(line@.subrange(0, k as int) =~= line@.take(k as int));
    match parse_rfc3339(head) {
        Ok(t) => {
            let rest = trim_start_text(line.as_str().substring_char(k, total));
            assert(line@.subrange(k as int, total as int) =~= line@.skip(k as int));
            LogEntry { line: n, text: rest, timestamp: Some(t) }
        },
        Err(_) => LogEntry { line: n, text: line, timestamp: None },
    }
}

/// Split a GitHub job log into numbered entries, reading the timestamp at
/// the start of each line where there is one.
pub fn parse_log_lines(raw: &str) -> (r: Vec<LogEntry>)
    ensures
        stamped_entries(raw@, r@),
{
    let lines = split_lines(raw);
    let ghost views = string_views(lines@);
    let mut rest = lines;
    let mut r: Vec<LogEntry> = Vec::new();
    let ghost mut k: int = 0;
    let n = rest.len();
    while rest.len() > 0
        invariant
            0 <= k <= views.len(),
            n == views.len(),
            views == lines_spec(raw@),
            string_views(rest@) == views.skip(k),
            r@.len() == k,
            forall|i: int|
                0 <= i < k ==> (#[trigger] r@[i]).line == i + 1 && (r@[i].timestamp, r@[i].text@)
                    == stamped_parts(views[i]),
        decreases rest@.len(),
    {
        assert(string_views(rest@).len() == rest@.len());
        assert(views.skip(k).len() > 0);
        assert(string_views(rest@)[0] == views[k]);
        let ghost before = rest@;
        let text = rest.remove(0);
        let line = r.len() + 1;
        let e = stamped_entry(text, line);
        r.push(e);
        proof {
            k = k + 1;
        }
        assert forall|i: int| 0 <= i < rest@.len() implies string_views(rest@)[i] == views.skip(k)[i] by {
            assert(rest@[i] == before[i + 1]);
            assert(string_views(before)[i + 1] == views.skip(k - 1)[i + 1]);
        }
        assert(string_views(rest@) =~= views.skip(k));
    }
    r
}

// ---------------------------------------------------------------------------

/// Base URL of the GitHub REST API.
pub open spec fn api_base() -> Seq<char> {
    "https://api.github.com"@
}

/// URL of the most recent runs of `owner/repo`, `per_page` at most.
pub fn runs_url(owner: &str, repo: &str, per_page: u32) -> (r: String)
    ensures
        r@ == api_base() + "/repos/"@ + owner@ + "/"@ + repo@ + "/actions/runs?per_page="@
            + decimal(per_page as nat) + "&status="@,
{
    let mut r = "https://api.github.com".to_owned();
    push_str(&mut r, "/repos/");
    push_str(&mut r, owner);
    push_str(&mut r, "/");
    push_str(&mut r, repo);
    push_str(&mut r, "/actions/runs?per_page=");
    push_decimal(&mut r, per_page as u64);
    push_str(&mut r, "&status=");
    r
}

/// URL of the jobs of run `run_id` of `owner/repo`.
pub fn jobs_url(owner: &str, repo: &str, run_id: u64) -> (r: String)
    ensures
        r@ == api_base() + "/repos/"@ + owner@ + "/"@ + repo@ + "/actions/runs/"@ + decimal(
            run_id as nat,
        ) + "/jobs"@,
{
    let mut r = "https://api.github.com".to_owned();
    push_str(&mut r, "/repos/");
    push_str(&mut r, owner);
    push_str(&mut r, "/");
    push_str(&mut r, repo);
    push_str(&mut r, "/actions/runs/");
    push_decimal(&mut r, run_id);
    push_str(&mut r, "/jobs");
    r
}

/// URL of the raw log of job `job_id`.
pub fn job_log_url(job_id: u64) -> (r: String)
    ensures
        r@ == api_base() + "/repos/actions/jobs/"@ + decimal(job_id as nat) + "/logs"@,
{
    let mut r = "https://api.github.com".to_owned();
    push_str(&mut r, "/repos/actions/jobs/");
    push_decimal(&mut r, job_id);
    push_str(&mut r, "/logs");
    r
}

/// What a GitHub source's configuration must give the client: the owner
/// and the repositories.
pub fn source_settings(cfg: &SourceConfig) -> (r: Result<(String, Vec<String>), ArgusError>)
    ensures
        match r {
            Ok((owner, repos)) => (cfg.owner matches Some(o) && owner@ == o@) && (
            cfg.repos matches Some(l) && repos@ == l@),
            Err(e) => if cfg.owner is None {
                e@ == ArgusErrorView::Api(
                    ApiErrorView::RequestFailed("GitHub source missing 'owner'"@),
                )
            } else {
                cfg.repos is None && e@ == ArgusErrorView::Api(
                    ApiErrorView::RequestFailed("GitHub source missing 'repos'"@),
                )
            },
        },
{
    let owner = match &cfg.owner {
        Some(o) => o.clone(),
        None => {
            return Err(
                ArgusError::Api(ApiError::RequestFailed("GitHub source missing 'owner'".to_owned())),
            )
        },
    };
    let repos = match &cfg.repos {
        Some(l) => crate::config::clone_strings(l),
        None => {
            return Err(
                ArgusError::Api(ApiError::RequestFailed("GitHub source missing 'repos'".to_owned())),
            )
        },
    };
    Ok((owner, repos))
}

/// The message for a 401 answer.
pub open spec fn unauthorized_text() -> Seq<char> {
    "GitHub token is invalid or expired. Ensure your token has 'repo' and 'workflow' scopes."@
}

/// The message for a 403 answer.
pub open spec fn forbidden_text() -> Seq<char> {
    "GitHub API returned 403 Forbidden. Your token may lack the required scopes."@
}

/// What the GitHub client does after an attempt.
pub open spec fn github_retry(p: RetryPolicy, st: RetryState, o: AttemptView) -> (RetryState, RetryDecisionView) {
    match o {
        AttemptView::Response { status, retry_after } => if status == 401 {
            (st, RetryDecisionView::Fail(ApiErrorView::AuthFailed(unauthorized_text())))
        } else if status == 403 {
            (st, RetryDecisionView::Fail(ApiErrorView::AuthFailed(forbidden_text())))
        } else if status == 429 {
            rate_limit_or_fail(p, st, retry_after)
        } else if is_server_error(status) {
            backoff_or_fail(
                p,
                st,
                ApiErrorView::ApiError {
                    status,
                    message: "GitHub API server error after retries"@,
                },
            )
        } else if !is_success(status) {
            (
                st,
                RetryDecisionView::Fail(
                    ApiErrorView::ApiError {
                        status,
                        message: "Unexpected status from GitHub API: "@ + http_status_text(status),
                    },
                ),
            )
        } else {
            (st, RetryDecisionView::Proceed)
        },
        AttemptView::NetworkError(m) => backoff_or_fail(p, st, ApiErrorView::Network(m)),
    }
}

/// An authentication refusal (401 or 403) ends the GitHub retry loop at
/// once with an authentication error and leaves the retry state as it was;
/// the loop waits only after a rate limit (429), a server error (5xx) or a network error, and
/// goes on with the answer exactly when its status is a success (2xx).
pub proof fn lemma_github_auth_not_retried(p: RetryPolicy, st: RetryState, o: AttemptView)
    ensures
        (o matches AttemptView::Response { status, .. } && (status == 401 || status == 403)) ==> github_retry(p, st, o).0
            == st && github_retry(p, st, o).1 matches RetryDecisionView::Fail(ApiErrorView::AuthFailed(_)),
        (github_retry(p, st, o).1 is WaitSeconds || github_retry(p, st, o).1 is WaitMillis) ==> (o is NetworkError || (
        o matches AttemptView::Response { status, .. } && (status == 429 || 500 <= status <= 599))),
        github_retry(p, st, o).1 is Proceed <==> (o matches AttemptView::Response { status, .. } && 200 <= status
            <= 299),
{
}

/// Every step of the GitHub retry loop keeps to the retry policy (see
/// `retry_step_ok`), so a request is tried at most `max_retries + 1` times.
pub proof fn lemma_github_retry_bounded(p: RetryPolicy, st: RetryState, o: AttemptView)
    ensures
        retry_step_ok(p, st, github_retry(p, st, o).0, github_retry(p, st, o).1),
{
}


/// Decide what to do after an attempt of a GitHub request: auth failures
/// end at once, 429 waits for `Retry-After`, server and network errors back
/// off, other non-success statuses fail.
pub fn retry_decision(p: &RetryPolicy, st: &mut RetryState, outcome: Attempt) -> (d: RetryDecision)
    requires
        outcome matches Attempt::Response { status, .. } ==> 100 <= status <= 999,
    ensures
        (*final(st), d@) == github_retry(*p, *old(st), outcome@),
        (outcome matches Attempt::Response { status, .. } && (status == 401 || status == 403))
            ==> *final(st) == *old(st) && d@ matches RetryDecisionView::Fail(
            ApiErrorView::AuthFailed(_),
        ),
        (d@ is WaitSeconds || d@ is WaitMillis) ==> (outcome is NetworkError || (
        outcome matches Attempt::Response { status, .. } && (status == 429 || 500 <= status <= 599))),
        d@ is Proceed <==> (outcome matches Attempt::Response { status, .. } && 200 <= status
            <= 299),
{
    proof {
        lemma_github_auth_not_retried(*p, *old(st), outcome@);
    }
    match outcome {
        Attempt::Response { status, retry_after } => {
            if status == 401 {
                RetryDecision::Fail(
                    ApiError::AuthFailed(
                        "GitHub token is invalid or expired. Ensure your token has 'repo' and 'workflow' scopes.".to_owned(),
                    ),
                )
            } else if status == 403 {
                RetryDecision::Fail(
                    ApiError::AuthFailed(
                        "GitHub API returned 403 Forbidden. Your token may lack the required scopes.".to_owned(),
                    ),
                )
            } else if status == 429 {
                rate_limit_step(p, st, &retry_after)
            } else if 500 <= status && status <= 599 {
                backoff_step(
                    p,
                    st,
                    ApiError::ApiError {
                        status,
                        message: "GitHub API server error after retries".to_owned(),
                    },
                )
            } else if !(200 <= status && status <= 299) {
                let mut message = "Unexpected status from GitHub API: ".to_owned();
                let t = status_text(status);
                push_str(&mut message, t.as_str());
                RetryDecision::Fail(ApiError::ApiError { status, message })
            } else {
                RetryDecision::Proceed
            }
        },
        Attempt::NetworkError(m) => backoff_step(p, st, ApiError::Network(m)),
    }
}

} // verus!
