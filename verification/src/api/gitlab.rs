//! GitLab CI: the shapes of the API's answers that the dashboard reads,
//! how they map onto pipelines and stages, the request URLs, the log
//! addressing and the retry rules.

use vstd::prelude::*;
use crate::api::github::{opt_view, span, span_of, text_or, text_or_default};
use crate::api::traits::{
    backoff_or_fail, backoff_step, http_status_text, is_server_error, is_success, plain_entries,
    plain_log_entries, rate_limit_or_fail, rate_limit_step, retry_step_ok, status_text, Attempt, AttemptView,
    LogEntry, RetryDecision, RetryDecisionView, RetryPolicy, RetryState,
};
use crate::config::SourceConfig;
use crate::instant::is_instant;
use crate::models::pipeline::{Pipeline, PipelineStatus};
use crate::models::stage::{opt_instant, Stage, StageStatus};
use crate::text::{
    all_digits, decimal, has_prefix, is_digit, is_digit_run, lemma_decimal_parses, lemma_decimal_value, parse_unsigned, parse_unsigned_spec,
    push_decimal, push_str, replace_char, replace_char_spec, same_text, starts_with, strip_prefix,
    trim_end_char, trim_end_matches,
};
use crate::utils::error::{ApiError, ApiErrorView, ArgusError, ArgusErrorView};

verus! {

/// A pipeline as the pipelines endpoint returns it.
#[derive(Debug, Clone)]
pub struct GitLabPipeline {
    pub id: u64,
    /// Project-scoped pipeline number
    pub iid: u64,
    /// The `ref` the pipeline ran for
    pub branch: Option<String>,
    pub status: String,
    pub created_at: i64,
    pub updated_at: Option<i64>,
    pub started_at: Option<i64>,
    pub finished_at: Option<i64>,
    pub web_url: String,
    pub sha: String,
    pub source: Option<String>,
}

/// A job as the jobs endpoint returns it.  `duration` is the reported
/// duration converted to milliseconds.
#[derive(Debug, Clone)]
pub struct GitLabJob {
    pub id: u64,
    pub name: String,
    pub status: String,
    pub stage: String,
    pub created_at: i64,
    pub started_at: Option<i64>,
    pub finished_at: Option<i64>,
    pub web_url: String,
    pub commit: Option<GitLabCommit>,
    pub user: Option<GitLabUser>,
    pub duration: Option<i64>,
    pub allow_failure: bool,
}

#[derive(Debug, Clone)]
pub struct GitLabCommit {
    pub id: String,
    pub message: String,
    pub author_name: String,
}

#[derive(Debug, Clone)]
pub struct GitLabUser {
    pub username: String,
}

impl GitLabPipeline {
    /// The pipeline's times are instants.
    pub open spec fn wf(&self) -> bool {
        is_instant(self.created_at) && opt_instant(self.updated_at) && opt_instant(self.started_at)
            && opt_instant(self.finished_at)
    }
}

impl GitLabJob {
    /// The job's times are instants.
    pub open spec fn wf(&self) -> bool {
        is_instant(self.created_at) && opt_instant(self.started_at) && opt_instant(self.finished_at)
    }
}

pub open spec fn is_waiting(s: Seq<char>) -> bool {
    s == "pending"@ || s == "created"@ || s == "waiting_for_resource"@ || s == "preparing"@ || s
        == "scheduled"@
}

/// The pipeline status of a GitLab pipeline status.
pub open spec fn gl_pipeline_status(s: Seq<char>) -> PipelineStatus {
    if s == "success"@ {
        PipelineStatus::Success
    } else if s == "running"@ {
        PipelineStatus::Running
    } else if s == "failed"@ {
        PipelineStatus::Failed
    } else if is_waiting(s) {
        PipelineStatus::Pending
    } else if s == "canceled"@ {
        PipelineStatus::Cancelled
    } else if s == "skipped"@ || s == "manual"@ {
        PipelineStatus::Skipped
    } else {
        PipelineStatus::Pending
    }
}

/// The stage status of a GitLab job status.
pub open spec fn gl_job_status(s: Seq<char>) -> StageStatus {
    if s == "success"@ {
        StageStatus::Success
    } else if s == "running"@ {
        StageStatus::Running
    } else if s == "failed"@ {
        StageStatus::Failed
    } else if is_waiting(s) {
        StageStatus::Pending
    } else if s == "canceled"@ || s == "skipped"@ || s == "manual"@ {
        StageStatus::Skipped
    } else {
        StageStatus::Pending
    }
}

/// What a GitLab status means: "failed" and nothing else is a failure,
/// "success" and nothing else a success, "running" and nothing else a run
/// in progress, for pipelines and jobs alike; a pipeline is cancelled
/// exactly when "canceled", and a job is skipped exactly when "canceled",
/// "skipped" or "manual".
pub proof fn lemma_gitlab_status_meaning(s: Seq<char>)
    ensures
        gl_pipeline_status(s) == PipelineStatus::Failed <==> s == "failed"@,
        gl_pipeline_status(s) == PipelineStatus::Success <==> s == "success"@,
        gl_pipeline_status(s) == PipelineStatus::Running <==> s == "running"@,
        gl_pipeline_status(s) == PipelineStatus::Cancelled <==> s == "canceled"@,
        gl_job_status(s) == StageStatus::Failed <==> s == "failed"@,
        gl_job_status(s) == StageStatus::Success <==> s == "success"@,
        gl_job_status(s) == StageStatus::Running <==> s == "running"@,
        gl_job_status(s) == StageStatus::Skipped <==> s == "canceled"@ || s == "skipped"@ || s
            == "manual"@,
{
    reveal_strlit("failed");
    reveal_strlit("success");
    reveal_strlit("running");
    reveal_strlit("canceled");
    reveal_strlit("skipped");
    reveal_strlit("manual");
    reveal_strlit("pending");
    reveal_strlit("created");
    reveal_strlit("waiting_for_resource");
    reveal_strlit("preparing");
    reveal_strlit("scheduled");
    assert("success"@[1] != "scheduled"@[1]);
    assert("skipped"@[1] != "scheduled"@[1]);
    assert("skipped"@[1] != "success"@[1]);
    assert("canceled"@[1] != "created"@[1]);
    assert("failed"@[0] != "success"@[0]);
    assert("running"@[0] != "success"@[0]);
    assert("running"@[0] != "failed"@[0]);
    assert("canceled"@[0] != "failed"@[0]);
    assert("canceled"@[0] != "success"@[0]);
    assert("canceled"@[0] != "running"@[0]);
    assert("canceled"@[0] != "skipped"@[0]);
    assert("canceled"@[0] != "manual"@[0]);
    assert("canceled"@[0] != "pending"@[0]);
    assert("canceled"@[0] != "waiting_for_resource"@[0]);
    assert("canceled"@[0] != "preparing"@[0]);
    assert("canceled"@[0] != "scheduled"@[0]);
    assert("skipped"@[0] != "failed"@[0]);
    assert("skipped"@[0] != "running"@[0]);
    assert("skipped"@[0] != "canceled"@[0]);
    assert("skipped"@[0] != "manual"@[0]);
    assert("skipped"@[0] != "pending"@[0]);
    assert("skipped"@[0] != "created"@[0]);
    assert("skipped"@[0] != "waiting_for_resource"@[0]);
    assert("skipped"@[0] != "preparing"@[0]);
    assert("manual"@[0] != "failed"@[0]);
    assert("manual"@[0] != "success"@[0]);
    assert("manual"@[0] != "running"@[0]);
    assert("manual"@[0] != "canceled"@[0]);
    assert("manual"@[0] != "skipped"@[0]);
    assert("manual"@[0] != "pending"@[0]);
    assert("manual"@[0] != "created"@[0]);
    assert("manual"@[0] != "waiting_for_resource"@[0]);
    assert("manual"@[0] != "preparing"@[0]);
    assert("manual"@[0] != "scheduled"@[0]);
}

fn waiting(s: &str) -> (r: bool)
    ensures
        r == is_waiting(s@),
{
    same_text(s, "pending") || same_text(s, "created") || same_text(s, "waiting_for_resource")
        || same_text(s, "preparing") || same_text(s, "scheduled")
}

/// Map a GitLab pipeline status to a `PipelineStatus`.
pub fn map_pipeline_status(status: &str) -> (r: PipelineStatus)
    ensures
        r == gl_pipeline_status(status@),
{
    if same_text(status, "success") {
        PipelineStatus::Success
    } else if same_text(status, "running") {
        PipelineStatus::Running
    } else if same_text(status, "failed") {
        PipelineStatus::Failed
    } else if waiting(status) {
        PipelineStatus::Pending
    } else if same_text(status, "canceled") {
        PipelineStatus::Cancelled
    } else if same_text(status, "skipped") || same_text(status, "manual") {
        PipelineStatus::Skipped
    } else {
        PipelineStatus::Pending
    }
}

/// Map a GitLab job status to a `StageStatus`.
pub fn map_job_status(status: &str) -> (r: StageStatus)
    ensures
        r == gl_job_status(status@),
{
    if same_text(status, "success") {
        StageStatus::Success
    } else if same_text(status, "running") {
        StageStatus::Running
    } else if same_text(status, "failed") {
        StageStatus::Failed
    } else if waiting(status) {
        StageStatus::Pending
    } else if same_text(status, "canceled") || same_text(status, "skipped") || same_text(
        status,
        "manual",
    ) {
        StageStatus::Skipped
    } else {
        StageStatus::Pending
    }
}

/// A project path with `/` replaced by `%2F`, as the API addresses it.
pub open spec fn encoded_project(p: Seq<char>) -> Seq<char> {
    replace_char_spec(p, '/', "%2F"@)
}

/// URL-encode a project path ("group/project" → "group%2Fproject").
pub fn encode_project(project: &str) -> (r: String)
    ensures
        r@ == encoded_project(project@),
{
    replace_char(project, '/', "%2F")
}

/// The commit message and author of the first job that carries a commit.
pub open spec fn first_commit_info(jobs: Seq<GitLabJob>) -> (Seq<char>, Seq<char>)
    decreases jobs.len(),
{
    if jobs.len() == 0 {
        ("No commit message"@, "unknown"@)
    } else {
        match jobs[0].commit {
            Some(c) => (c.message@, c.author_name@),
            None => first_commit_info(jobs.drop_first()),
        }
    }
}

/// The stage made of job `j`, the `i`-th of its pipeline.
pub open spec fn gl_job_stage(s: Stage, j: GitLabJob, i: int) -> bool {
    &&& s.id@ == decimal(j.id as nat)
    &&& s.name@ == j.stage@ + " / "@ + j.name@
    &&& s.status == gl_job_status(j.status@)
    &&& s.started_at == j.started_at
    &&& s.finished_at == j.finished_at
    &&& s.duration == (if j.started_at is Some && j.finished_at is Some {
        span(j.started_at, j.finished_at)
    } else {
        j.duration
    })
    &&& s.log_url matches Some(u) && u@ == j.web_url@
    &&& s.order == i
}

/// The pipeline made of GitLab pipeline `gl` of `project` with its `jobs`.
pub open spec fn gl_pipeline(p: Pipeline, gl: GitLabPipeline, jobs: Seq<GitLabJob>, project: Seq<char>) -> bool {
    &&& p.id@ == "gitlab-"@ + replace_char_spec(project, '/', "-"@) + "-"@ + decimal(gl.id as nat)
    &&& p.name@ == "Pipeline #"@ + decimal(gl.iid as nat)
    &&& p.source@ == "GitLab CI"@
    &&& p.repository@ == project
    &&& p.branch@ == text_or(gl.branch, "unknown"@)
    &&& p.status == gl_pipeline_status(gl.status@)
    &&& p.build_number == gl.iid as u32
    &&& p.started_at == match gl.started_at {
        Some(t) => t,
        None => gl.created_at,
    }
    &&& p.finished_at == gl.finished_at
    &&& p.duration == span(gl.started_at, gl.finished_at)
    &&& p.stages@.len() == jobs.len()
    &&& forall|i: int| 0 <= i < jobs.len() ==> gl_job_stage(#[trigger] p.stages@[i], jobs[i], i)
    &&& p.url@ == gl.web_url@
    &&& p.commit_sha@ == gl.sha@
    &&& (p.commit_message@, p.author@) == first_commit_info(jobs)
}

fn gl_job_to_stage(j: &GitLabJob, i: usize) -> (s: Stage)
    requires
        j.wf(),
    ensures
        gl_job_stage(s, *j, i as int),
{
    let mut id = String::new();
    push_decimal(&mut id, j.id);
    assert(id@ =~= decimal(j.id as nat));
    let mut name = j.stage.clone();
    push_str(&mut name, " / ");
    push_str(&mut name, j.name.as_str());
    let duration = if j.started_at.is_some() && j.finished_at.is_some() {
        span_of(j.started_at, j.finished_at)
    } else {
        j.duration
    };
    Stage {
        id,
        name,
        status: map_job_status(j.status.as_str()),
        started_at: j.started_at,
        finished_at: j.finished_at,
        duration,
        log_url: Some(j.web_url.clone()),
        order: i,
    }
}

fn commit_info(jobs: &Vec<GitLabJob>) -> (r: (String, String))
    ensures
        (r.0@, r.1@) == first_commit_info(jobs@),
{
    let n = jobs.len();
    let mut i: usize = 0;
    assert(jobs@.skip(0) =~= jobs@);
    while i < n
        invariant
            n == jobs@.len(),
            i <= n,
            first_commit_info(jobs@.skip(i as int)) == first_commit_info(jobs@),
        decreases n - i,
    {
        assert(jobs@.skip(i as int).drop_first() =~= jobs@.skip(i + 1));
        assert(jobs@.skip(i as int)[0] == jobs@[i as int]);
        match &jobs[i].commit {
            Some(c) => {
                return (c.message.clone(), c.author_name.clone());
            },
            None => {},
        }
        i = i + 1;
    }
    ("No commit message".to_owned(), "unknown".to_owned())
}

/// Convert a GitLab pipeline and its jobs into a `Pipeline`; stages keep
/// the order of the jobs.
pub fn gl_pipeline_to_pipeline(gl: &GitLabPipeline, jobs: Vec<GitLabJob>, project: &str) -> (p: Pipeline)
    requires
        gl.wf(),
        forall|i: int| 0 <= i < jobs@.len() ==> (#[trigger] jobs@[i]).wf(),
    ensures
        gl_pipeline(p, *gl, jobs@, project@),
{
    let status = map_pipeline_status(gl.status.as_str());
    let started_at = match gl.started_at {
        Some(t) => t,
        None => gl.created_at,
    };
    let duration = span_of(gl.started_at, gl.finished_at);
    let (commit_message, author) = commit_info(&jobs);
    let mut stages: Vec<Stage> = Vec::new();
    let n = jobs.len();
    let mut i: usize = 0;
    while i < n
        invariant
            n == jobs@.len(),
            i <= n,
            stages@.len() == i,
            forall|k: int| 0 <= k < jobs@.len() ==> (#[trigger] jobs@[k]).wf(),
            forall|k: int| 0 <= k < i ==> gl_job_stage(#[trigger] stages@[k], jobs@[k], k),
        decreases n - i,
    {
        let s = gl_job_to_stage(&jobs[i], i);
        stages.push(s);
        i = i + 1;
    }
    let dashed = replace_char(project, '/', "-");
    let mut id = "gitlab-".to_owned();
    push_str(&mut id, dashed.as_str());
    push_str(&mut id, "-");
    push_decimal(&mut id, gl.id);
    let mut name = "Pipeline #".to_owned();
    push_decimal(&mut name, gl.iid);
    assert(id@ =~= "gitlab-"@ + replace_char_spec(project@, '/', "-"@) + "-"@ + decimal(
        gl.id as nat,
    ));
    assert(name@ =~= "Pipeline #"@ + decimal(gl.iid as nat));
    #[verifier::truncate]
    let build_number = gl.iid as u32;
    Pipeline {
        id,
        name,
        source: "GitLab CI".to_owned(),
        repository: project.to_owned(),
        branch: text_or_default(&gl.branch, "unknown"),
        status,
        build_number,
        started_at,
        finished_at: gl.finished_at,
        duration,
        stages,
        url: gl.web_url.clone(),
        commit_sha: gl.sha.clone(),
        commit_message,
        author,
    }
}

/// Split a GitLab job trace into numbered log entries.
pub fn parse_log_lines(raw: &str) -> (r: Vec<LogEntry>)
    ensures
        plain_entries(raw@, r@),
{
    plain_log_entries(raw)
}

// ---------------------------------------------------------------------------
// Requests
// ---------------------------------------------------------------------------

/// The API root of a GitLab instance at `url` (gitlab.com by default).
pub open spec fn api_root(url: Option<Seq<char>>) -> Seq<char> {
    let base = match url {
        Some(u) => u,
        None => "https://gitlab.com"@,
    };
    trim_end_char(base, '/') + "/api/v4"@
}

/// What a GitLab source's configuration gives the client: the API root
/// and the projects.
pub fn source_settings(cfg: &SourceConfig) -> (r: Result<(String, Vec<String>), ArgusError>)
    ensures
        match r {
            Ok((base, projects)) => base@ == api_root(opt_view(cfg.url)) && (
            cfg.projects matches Some(l) && projects@ == l@),
            Err(e) => cfg.projects is None && e@ == ArgusErrorView::Api(
                ApiErrorView::RequestFailed("GitLab source missing 'projects'"@),
            ),
        },
{
    let base = match &cfg.url {
        Some(u) => trim_end_matches(u.as_str(), '/'),
        None => trim_end_matches("https://gitlab.com", '/'),
    };
    let mut base = base;
    push_str(&mut base, "/api/v4");
    let projects = match &cfg.projects {
        Some(l) => crate::config::clone_strings(l),
        None => {
            return Err(
                ArgusError::Api(
                    ApiError::RequestFailed("GitLab source missing 'projects'".to_owned()),
                ),
            )
        },
    };
    Ok((base, projects))
}

/// URL of the five most recent pipelines of `project`.
pub fn pipelines_url(base: &str, project: &str) -> (r: String)
    ensures
        r@ == base@ + "/projects/"@ + encoded_project(project@)
            + "/pipelines?per_page=5&order_by=id&sort=desc"@,
{
    let mut r = base.to_owned();
    push_str(&mut r, "/projects/");
    let e = encode_project(project);
    push_str(&mut r, e.as_str());
    push_str(&mut r, "/pipelines?per_page=5&order_by=id&sort=desc");
    r
}

/// URL of the jobs of pipeline `pipeline_id` of `project`.
pub fn jobs_url(base: &str, project: &str, pipeline_id: u64) -> (r: String)
    ensures
        r@ == base@ + "/projects/"@ + encoded_project(project@) + "/pipelines/"@ + decimal(
            pipeline_id as nat,
        ) + "/jobs?per_page=100"@,
{
    let mut r = base.to_owned();
    push_str(&mut r, "/projects/");
    let e = encode_project(project);
    push_str(&mut r, e.as_str());
    push_str(&mut r, "/pipelines/");
    push_decimal(&mut r, pipeline_id);
    push_str(&mut r, "/jobs?per_page=100");
    r
}

/// URL of the trace (log) of job `job_id` of `project`.
pub fn trace_url(base: &str, project: &str, job_id: u64) -> (r: String)
    ensures
        r@ == base@ + "/projects/"@ + encoded_project(project@) + "/jobs/"@ + decimal(
            job_id as nat,
        ) + "/trace"@,
{
    let mut r = base.to_owned();
    push_str(&mut r, "/projects/");
    let e = encode_project(project);
    push_str(&mut r, e.as_str());
    push_str(&mut r, "/jobs/");
    push_decimal(&mut r, job_id);
    push_str(&mut r, "/trace");
    r
}

/// URL used to check the connection and the token.
pub fn user_url(base: &str) -> (r: String)
    ensures
        r@ == base@ + "/user"@,
{
    let mut r = base.to_owned();
    push_str(&mut r, "/user");
    r
}

/// The prefix of the ids of the pipelines of `project`.
pub open spec fn project_prefix(project: Seq<char>) -> Seq<char> {
    "gitlab-"@ + replace_char_spec(project, '/', "-"@) + "-"@
}

/// Whether `pipeline_id` is the id of a pipeline of `project`: the
/// project's prefix followed by the pipeline's number and nothing else.
pub open spec fn names_project(pipeline_id: Seq<char>, project: Seq<char>) -> bool {
    let prefix = project_prefix(project);
    &&& has_prefix(pipeline_id, prefix)
    &&& pipeline_id.len() > prefix.len()
    &&& all_digits(pipeline_id.skip(prefix.len() as int))
}

/// The index of the first project whose pipeline `pipeline_id` names.
pub open spec fn project_of(projects: Seq<String>, pipeline_id: Seq<char>) -> Option<int>
    decreases projects.len(),
{
    if projects.len() == 0 {
        None
    } else if names_project(pipeline_id, projects[0]@) {
        Some(0)
    } else {
        match project_of(projects.drop_first(), pipeline_id) {
            Some(i) => Some(i + 1),
            None => None,
        }
    }
}

/// `project_of` finds the first project that the id names.
proof fn lemma_project_of_first(projects: Seq<String>, pid: Seq<char>, i: int)
    requires
        0 <= i < projects.len(),
        names_project(pid, projects[i]@),
        forall|j: int| 0 <= j < i ==> !names_project(pid, #[trigger] projects[j]@),
    ensures
        project_of(projects, pid) == Some(i),
    decreases i,
{
    if i > 0 {
        let d = projects.drop_first();
        assert forall|j: int| 0 <= j < i - 1 implies !names_project(pid, #[trigger] d[j]@) by {
            assert(d[j] == projects[j + 1]);
        }
        assert(d[i - 1] == projects[i]);
        lemma_project_of_first(d, pid, i - 1);
    }
}

/// The id of a pipeline of project `p` names no project with another
/// prefix: one prefix would end inside the other's pipeline number.
proof fn lemma_names_only_own_prefix(p: Seq<char>, q: Seq<char>, number: nat)
    requires
        project_prefix(p) != project_prefix(q),
    ensures
        !names_project(project_prefix(p) + decimal(number), q),
{
    reveal_strlit("-");
    let a = project_prefix(p);
    let b = project_prefix(q);
    let pid = a + decimal(number);
    lemma_decimal_value(number);
    if names_project(pid, q) {
        assert(a[a.len() - 1] == '-');
        assert(b[b.len() - 1] == '-');
        if b.len() == a.len() {
            assert(b =~= pid.take(b.len() as int));
            assert(a =~= pid.take(a.len() as int));
        } else if b.len() < a.len() {
            let k = a.len() - 1 - b.len();
            assert(pid.skip(b.len() as int)[k] == pid[a.len() - 1]);
            assert(pid[a.len() - 1] == a[a.len() - 1]);
            assert(!is_digit(pid.skip(b.len() as int)[k]));
        } else {
            let k = b.len() - 1 - a.len();
            assert(pid[b.len() - 1] == b[b.len() - 1]);
            assert(pid[b.len() - 1] == decimal(number)[k]);
            assert(is_digit(decimal(number)[k]));
        }
    }
}

/// The log of a stage of a pipeline converted from project `projects[i]`
/// is fetched from that project, unless an earlier project has the same
/// prefix (so that the ids of the two cannot be told apart).
pub proof fn lemma_log_target_of_pipeline(projects: Seq<String>, i: int, number: u64, job: u64)
    requires
        0 <= i < projects.len(),
        forall|j: int| 0 <= j < i ==> project_prefix(#[trigger] projects[j]@) != project_prefix(projects[i]@),
    ensures
        log_target_spec(projects, project_prefix(projects[i]@) + decimal(number as nat), decimal(job as nat))
            == Ok::<(Seq<char>, u64), ApiErrorView>((projects[i]@, job)),
{
    let pid = project_prefix(projects[i]@) + decimal(number as nat);
    lemma_decimal_value(number as nat);
    assert(pid.skip(project_prefix(projects[i]@).len() as int) =~= decimal(number as nat));
    assert(pid.take(project_prefix(projects[i]@).len() as int) =~= project_prefix(projects[i]@));
    assert(names_project(pid, projects[i]@));
    assert forall|j: int| 0 <= j < i implies !names_project(pid, #[trigger] projects[j]@) by {
        lemma_names_only_own_prefix(projects[i]@, projects[j]@, number as nat);
    }
    lemma_project_of_first(projects, pid, i);
    lemma_decimal_parses(job as nat, u64::MAX as int);
}

/// Where the log of stage `stage_id` of pipeline `pipeline_id` lives: the
/// project and the numeric job id; or the error for ids that do not parse
/// or name no configured project.
pub open spec fn log_target_spec(projects: Seq<String>, pipeline_id: Seq<char>, stage_id: Seq<char>) -> Result<(Seq<char>, u64), ApiErrorView> {
    match parse_unsigned_spec(stage_id, u64::MAX as int) {
        None => Err(ApiErrorView::RequestFailed("Invalid stage_id: "@ + stage_id)),
        Some(job) => match project_of(projects, pipeline_id) {
            None => Err(
                ApiErrorView::RequestFailed(
                    "Cannot determine project for pipeline_id: "@ + pipeline_id,
                ),
            ),
            Some(i) => Ok((projects[i]@, job as u64)),
        },
    }
}

/// Find the project and job whose log a stage of a pipeline refers to.
pub fn log_target(projects: &Vec<String>, pipeline_id: &str, stage_id: &str) -> (r: Result<(String, u64), ArgusError>)
    ensures
        match log_target_spec(projects@, pipeline_id@, stage_id@) {
            Ok((p, j)) => r matches Ok((q, k)) && q@ == p && k == j,
            Err(e) => r matches Err(f) && f@ == ArgusErrorView::Api(e),
        },
{
    let job_id = match parse_unsigned(stage_id, u64::MAX) {
        Some(j) => j,
        None => {
            let mut m = "Invalid stage_id: ".to_owned();
            push_str(&mut m, stage_id);
            return Err(ArgusError::Api(ApiError::RequestFailed(m)));
        },
    };
    let n = projects.len();
    let mut i: usize = 0;
    assert(projects@.skip(0) =~= projects@);
    while i < n
        invariant
            n == projects@.len(),
            i <= n,
            parse_unsigned_spec(stage_id@, u64::MAX as int) == Some(job_id as int),
            match project_of(projects@, pipeline_id@) {
                Some(k) => match project_of(projects@.skip(i as int), pipeline_id@) {
                    Some(j) => k == j + i,
                    None => false,
                },
                None => project_of(projects@.skip(i as int), pipeline_id@) is None,
            },
        decreases n - i,
    {
        assert(projects@.skip(i as int).drop_first() =~= projects@.skip(i + 1));
        assert(projects@.skip(i as int)[0] == projects@[i as int]);
        let dashed = replace_char(projects[i].as_str(), '/', "-");
        let mut prefix = "gitlab-".to_owned();
        push_str(&mut prefix, dashed.as_str());
        push_str(&mut prefix, "-");
        assert(prefix@ =~= project_prefix(projects@[i as int]@));
        let names = match strip_prefix(pipeline_id, prefix.as_str()) {
            Some(rest) => is_digit_run(rest.as_str()),
            None => false,
        };
        if names {
            assert(project_of(projects@.skip(i as int), pipeline_id@) == Some(0int));
            assert(project_of(projects@, pipeline_id@) == Some(i as int));
            return Ok((projects[i].clone(), job_id));
        }
        i = i + 1;
    }
    let mut m = "Cannot determine project for pipeline_id: ".to_owned();
    push_str(&mut m, pipeline_id);
    Err(ArgusError::Api(ApiError::RequestFailed(m)))
}

/// The message for a 401 or 403 answer.
pub open spec fn auth_text() -> Seq<char> {
    "GitLab token is invalid or lacks required scopes (api, read_api)."@
}

/// What the GitLab client does after an attempt at `url`.
pub open spec fn gitlab_retry(p: RetryPolicy, st: RetryState, url: Seq<char>, o: AttemptView) -> (RetryState, RetryDecisionView) {
    match o {
        AttemptView::Response { status, retry_after } => if status == 401 || status == 403 {
            (st, RetryDecisionView::Fail(ApiErrorView::AuthFailed(auth_text())))
        } else if status == 429 {
            rate_limit_or_fail(p, st, retry_after)
        } else if is_server_error(status) {
            backoff_or_fail(
                p,
                st,
                ApiErrorView::ApiError {
                    status,
                    message: "GitLab API server error after retries"@,
                },
            )
        } else if status == 404 {
            (st, RetryDecisionView::Fail(ApiErrorView::NotFound(url)))
        } else if !is_success(status) {
            (
                st,
                RetryDecisionView::Fail(
                    ApiErrorView::ApiError {
                        status,
                        message: "Unexpected status from GitLab API: "@ + http_status_text(status),
                    },
                ),
            )
        } else {
            (st, RetryDecisionView::Proceed)
        },
        AttemptView::NetworkError(m) => backoff_or_fail(p, st, ApiErrorView::Network(m)),
    }
}

/// An authentication refusal (401 or 403) ends the GitLab retry loop at
/// once with an authentication error and leaves the retry state as it was;
/// the loop waits only after a rate limit (429), a server error (5xx) or a network error, and
/// goes on with the answer exactly when its status is a success (2xx).
pub proof fn lemma_gitlab_auth_not_retried(p: RetryPolicy, st: RetryState, url: Seq<char>, o: AttemptView)
    ensures
        (o matches AttemptView::Response { status, .. } && (status == 401 || status == 403)) ==> gitlab_retry(p, st, url, o).0
            == st && gitlab_retry(p, st, url, o).1 matches RetryDecisionView::Fail(ApiErrorView::AuthFailed(_)),
        (gitlab_retry(p, st, url, o).1 is WaitSeconds || gitlab_retry(p, st, url, o).1 is WaitMillis) ==> (o is NetworkError || (
        o matches AttemptView::Response { status, .. } && (status == 429 || 500 <= status <= 599))),
        gitlab_retry(p, st, url, o).1 is Proceed <==> (o matches AttemptView::Response { status, .. } && 200 <= status
            <= 299),
{
}

/// Every step of the GitLab retry loop keeps to the retry policy (see
/// `retry_step_ok`), so a request is tried at most `max_retries + 1` times.
pub proof fn lemma_gitlab_retry_bounded(p: RetryPolicy, st: RetryState, url: Seq<char>, o: AttemptView)
    ensures
        retry_step_ok(p, st, gitlab_retry(p, st, url, o).0, gitlab_retry(p, st, url, o).1),
{
}


/// Decide what to do after an attempt of a GitLab request to `url`.
pub fn retry_decision(p: &RetryPolicy, st: &mut RetryState, url: &str, outcome: Attempt) -> (d: RetryDecision)
    requires
        outcome matches Attempt::Response { status, .. } ==> 100 <= status <= 999,
    ensures
        (*final(st), d@) == gitlab_retry(*p, *old(st), url@, outcome@),
        (outcome matches Attempt::Response { status, .. } && (status == 401 || status == 403))
            ==> *final(st) == *old(st) && d@ matches RetryDecisionView::Fail(
            ApiErrorView::AuthFailed(_),
        ),
        (d@ is WaitSeconds || d@ is WaitMillis) ==> (outcome is NetworkError || (
        outcome matches Attempt::Response { status, .. } && (status == 429 || 500 <= status <= 599))),
        d@ is Proceed <==> (outcome matches Attempt::Response { status, .. } && 200 <= status
            <= 299),
{
    proof {
        lemma_gitlab_auth_not_retried(*p, *old(st), url@, outcome@);
    }
    match outcome {
        Attempt::Response { status, retry_after } => {
            if status == 401 || status == 403 {
                RetryDecision::Fail(
                    ApiError::AuthFailed(
                        "GitLab token is invalid or lacks required scopes (api, read_api).".to_owned(),
                    ),
                )
            } else if status == 429 {
                rate_limit_step(p, st, &retry_after)
            } else if 500 <= status && status <= 599 {
                backoff_step(
                    p,
                    st,
                    ApiError::ApiError {
                        status,
                        message: "GitLab API server error after retries".to_owned(),
                    },
                )
            } else if status == 404 {
                RetryDecision::Fail(ApiError::NotFound(url.to_owned()))
            } else if !(200 <= status && status <= 299) {
                let mut message = "Unexpected status from GitLab API: ".to_owned();
                let t = status_text(status);
                push_str(&mut message, t.as_str());
                RetryDecision::Fail(ApiError::ApiError { status, message })
            } else {
                RetryDecision::Proceed
            }
        },
        Attempt::NetworkError(m) => backoff_step(p, st, ApiError::Network(m)),
    }
}

} // verus!
