//! Jenkins: the shapes of the API's answers that the dashboard reads, how
//! a build maps onto a pipeline, the request URLs, the log addressing and
//! the retry rules.

use vstd::prelude::*;
use crate::api::github::{opt_view, text_or};
use crate::api::traits::{
    backoff_or_fail, backoff_step, http_status_text, is_server_error, is_success, plain_entries,
    plain_log_entries, retry_step_ok, status_text, Attempt, AttemptView, LogEntry, RetryDecision,
    RetryDecisionView, RetryPolicy, RetryState,
};
use crate::config::SourceConfig;
use crate::instant::{checked_instant, in_instant_range, is_instant, now_millis, MAX_INSTANT_MS, MIN_INSTANT_MS};
use crate::models::pipeline::{Pipeline, PipelineStatus};
use crate::models::stage::{Stage, StageStatus};
use crate::text::{
    decimal, has_prefix, is_digit, lemma_decimal_parses, lemma_decimal_value, parse_unsigned,
    parse_unsigned_spec, push_decimal, push_str, same_text, strip_prefix, trim_end_char,
    trim_end_matches,
};
use crate::utils::error::{ApiError, ApiErrorView, ArgusError, ArgusErrorView};
use crate::utils::time::MAX_INSTANT_MS_U64;

verus! {

/// A job as the job endpoint summarises it.
#[derive(Debug, Clone)]
pub struct JobSummary {
    pub name: String,
    pub url: String,
    pub last_build: Option<BuildRef>,
}

#[derive(Debug, Clone)]
pub struct BuildRef {
    pub number: u32,
    pub url: String,
}

/// The details of a build.  `timestamp` is in Unix milliseconds;
/// `duration` is in milliseconds (0 while running).
#[derive(Debug)]
pub struct BuildDetail {
    pub number: u32,
    /// "SUCCESS", "FAILURE", "ABORTED", "UNSTABLE", or none while running
    pub result: Option<String>,
    pub in_progress: bool,
    pub timestamp: u64,
    pub duration: u64,
    pub estimated_duration: u64,
    pub url: String,
    pub display_name: Option<String>,
    pub full_display_name: Option<String>,
    pub actions: Vec<BuildAction>,
}

#[derive(Debug)]
pub struct BuildAction {
    pub class: Option<String>,
    pub causes: Option<Vec<Cause>>,
    pub remote_urls: Option<Vec<String>>,
    pub last_built_revision: Option<Revision>,
    pub parameters: Option<Vec<Parameter>>,
}

#[derive(Debug)]
pub struct Cause {
    pub short_description: Option<String>,
    pub user_id: Option<String>,
}

#[derive(Debug)]
pub struct Revision {
    pub sha1: Option<String>,
    pub branch: Option<Vec<Branch>>,
}

#[derive(Debug)]
pub struct Branch {
    pub name: Option<String>,
}

/// A build parameter; `value` is its JSON text.
#[derive(Debug)]
pub struct Parameter {
    pub name: Option<String>,
    pub value: Option<String>,
}

/// A stage as the workflow API describes it.
#[derive(Debug)]
pub struct WfapiStage {
    pub id: String,
    pub name: String,
    /// "SUCCESS", "FAILED", "IN_PROGRESS", "NOT_EXECUTED", "PAUSED"
    pub status: String,
    pub start_time_millis: Option<u64>,
    pub duration_millis: Option<u64>,
}

// ---------------------------------------------------------------------------
// Status mapping
// ---------------------------------------------------------------------------

/// The pipeline status of a build result.
pub open spec fn build_status(result: Option<Seq<char>>, in_progress: bool) -> PipelineStatus {
    if in_progress {
        PipelineStatus::Running
    } else if result == Some("SUCCESS"@) {
        PipelineStatus::Success
    } else if result == Some("FAILURE"@) || result == Some("UNSTABLE"@) {
        PipelineStatus::Failed
    } else if result == Some("ABORTED"@) {
        PipelineStatus::Cancelled
    } else if result == Some("NOT_BUILT"@) {
        PipelineStatus::Skipped
    } else {
        PipelineStatus::Pending
    }
}

/// The stage status of a workflow stage status.
pub open spec fn wf_stage_status(s: Seq<char>) -> StageStatus {
    if s == "SUCCESS"@ {
        StageStatus::Success
    } else if s == "FAILED"@ || s == "UNSTABLE"@ {
        StageStatus::Failed
    } else if s == "IN_PROGRESS"@ {
        StageStatus::Running
    } else if s == "PAUSED"@ {
        StageStatus::Pending
    } else if s == "NOT_EXECUTED"@ {
        StageStatus::Skipped
    } else {
        StageStatus::Pending
    }
}

/// What a Jenkins build result and stage status mean: a build in progress
/// is running whatever its result; a finished build failed exactly when
/// its result is "FAILURE" or "UNSTABLE", succeeded exactly when it is
/// "SUCCESS" and was cancelled exactly when it is "ABORTED".  A stage
/// failed exactly when "FAILED" or "UNSTABLE", succeeded exactly when
/// "SUCCESS", is running exactly when "IN_PROGRESS" and was skipped exactly
/// when "NOT_EXECUTED".
pub proof fn lemma_jenkins_status_meaning(result: Option<Seq<char>>, in_progress: bool, s: Seq<char>)
    ensures
        build_status(result, in_progress) == PipelineStatus::Running <==> in_progress,
        build_status(result, in_progress) == PipelineStatus::Failed <==> !in_progress && (result
            == Some("FAILURE"@) || result == Some("UNSTABLE"@)),
        build_status(result, in_progress) == PipelineStatus::Success <==> !in_progress && result
            == Some("SUCCESS"@),
        build_status(result, in_progress) == PipelineStatus::Cancelled <==> !in_progress && result
            == Some("ABORTED"@),
        wf_stage_status(s) == StageStatus::Failed <==> s == "FAILED"@ || s == "UNSTABLE"@,
        wf_stage_status(s) == StageStatus::Success <==> s == "SUCCESS"@,
        wf_stage_status(s) == StageStatus::Running <==> s == "IN_PROGRESS"@,
        wf_stage_status(s) == StageStatus::Skipped <==> s == "NOT_EXECUTED"@,
{
    reveal_strlit("SUCCESS");
    reveal_strlit("FAILURE");
    reveal_strlit("UNSTABLE");
    reveal_strlit("ABORTED");
    reveal_strlit("NOT_BUILT");
    reveal_strlit("FAILED");
    reveal_strlit("IN_PROGRESS");
    reveal_strlit("PAUSED");
    reveal_strlit("NOT_EXECUTED");
    assert("FAILURE"@[0] != "SUCCESS"@[0]);
    assert("UNSTABLE"@[0] != "SUCCESS"@[0]);
    assert("ABORTED"@[0] != "SUCCESS"@[0]);
    assert("ABORTED"@[0] != "FAILURE"@[0]);
    assert("ABORTED"@[0] != "UNSTABLE"@[0]);
    assert("IN_PROGRESS"@[0] != "SUCCESS"@[0]);
    assert("IN_PROGRESS"@[0] != "FAILED"@[0]);
    assert("IN_PROGRESS"@[0] != "UNSTABLE"@[0]);
    assert("NOT_EXECUTED"@[0] != "SUCCESS"@[0]);
    assert("NOT_EXECUTED"@[0] != "FAILED"@[0]);
    assert("NOT_EXECUTED"@[0] != "UNSTABLE"@[0]);
    assert("NOT_EXECUTED"@[0] != "IN_PROGRESS"@[0]);
    assert("NOT_EXECUTED"@[0] != "PAUSED"@[0]);
}

fn opt_is(o: &Option<String>, lit: &str) -> (r: bool)
    ensures
        r == (opt_view(*o) == Some(lit@)),
{
    match o {
        Some(s) => same_text(s.as_str(), lit),
        None => false,
    }
}

/// Map a build result to a `PipelineStatus`.
pub fn map_build_status(result: &Option<String>, in_progress: bool) -> (r: PipelineStatus)
    ensures
        r == build_status(opt_view(*result), in_progress),
{
    if in_progress {
        return PipelineStatus::Running;
    }
    if opt_is(result, "SUCCESS") {
        PipelineStatus::Success
    } else if opt_is(result, "FAILURE") || opt_is(result, "UNSTABLE") {
        PipelineStatus::Failed
    } else if opt_is(result, "ABORTED") {
        PipelineStatus::Cancelled
    } else if opt_is(result, "NOT_BUILT") {
        PipelineStatus::Skipped
    } else {
        PipelineStatus::Pending
    }
}

/// Map a workflow stage status to a `StageStatus`.
pub fn map_stage_status(status: &str) -> (r: StageStatus)
    ensures
        r == wf_stage_status(status@),
{
    if same_text(status, "SUCCESS") {
        StageStatus::Success
    } else if same_text(status, "FAILED") || same_text(status, "UNSTABLE") {
        StageStatus::Failed
    } else if same_text(status, "IN_PROGRESS") {
        StageStatus::Running
    } else if same_text(status, "PAUSED") {
        StageStatus::Pending
    } else if same_text(status, "NOT_EXECUTED") {
        StageStatus::Skipped
    } else {
        StageStatus::Pending
    }
}

// ---------------------------------------------------------------------------
// Times
// ---------------------------------------------------------------------------

/// The instant of a Unix millisecond count, or `now` when `chrono` cannot
/// represent it.
pub open spec fn instant_or(ms: u64, now: i64) -> i64 {
    if ms <= MAX_INSTANT_MS_U64 {
        ms as i64
    } else {
        now
    }
}

/// A millisecond count read as a signed duration (as `as i64` reads it).
pub open spec fn signed_ms(ms: u64) -> i64 {
    ms as i64
}

/// Convert Unix milliseconds into an instant; counts beyond what `chrono`
/// represents give the current time.
pub fn millis_to_datetime(millis: u64) -> (r: i64)
    ensures
        is_instant(r),
        millis <= MAX_INSTANT_MS_U64 ==> r == millis as i64,
{
    if millis > 9_223_372_036_854_775_807 {
        return now_millis();
    }
    match checked_instant(millis as i64) {
        Some(t) => t,
        None => now_millis(),
    }
}

fn instant_or_now(ms: u64, now: i64) -> (r: i64)
    requires
        is_instant(now),
    ensures
        r == instant_or(ms, now),
        is_instant(r),
{
    crate::utils::time::millis_to_instant(ms, now)
}

// ---------------------------------------------------------------------------
// Facts read from the build's actions
// ---------------------------------------------------------------------------

/// A branch name without its `refs/remotes/origin/` or `refs/heads/`
/// prefix.
pub open spec fn clean_branch(n: Seq<char>) -> Seq<char> {
    if has_prefix(n, "refs/remotes/origin/"@) {
        n.subrange("refs/remotes/origin/"@.len() as int, n.len() as int)
    } else if has_prefix(n, "refs/heads/"@) {
        n.subrange("refs/heads/"@.len() as int, n.len() as int)
    } else {
        n
    }
}

/// The name of the first branch of an action's last built revision.
pub open spec fn action_branch(a: BuildAction) -> Option<Seq<char>> {
    match a.last_built_revision {
        Some(rev) => match rev.branch {
            Some(bs) => if bs@.len() > 0 {
                match bs@[0].name {
                    Some(n) => Some(n@),
                    None => None,
                }
            } else {
                None
            },
            None => None,
        },
        None => None,
    }
}

/// The branch of the first action that names one, cleaned; "unknown" when
/// none does.
pub open spec fn branch_of(actions: Seq<BuildAction>) -> Seq<char>
    decreases actions.len(),
{
    if actions.len() == 0 {
        "unknown"@
    } else {
        match action_branch(actions[0]) {
            Some(n) => clean_branch(n),
            None => branch_of(actions.drop_first()),
        }
    }
}

/// The commit of the first action whose revision names one; empty when
/// none does.
pub open spec fn sha_of(actions: Seq<BuildAction>) -> Seq<char>
    decreases actions.len(),
{
    if actions.len() == 0 {
        Seq::empty()
    } else {
        match actions[0].last_built_revision {
            Some(rev) => match rev.sha1 {
                Some(s) => s@,
                None => sha_of(actions.drop_first()),
            },
            None => sha_of(actions.drop_first()),
        }
    }
}

/// The user of the first cause that names one.
pub open spec fn first_user(causes: Seq<Cause>) -> Option<Seq<char>>
    decreases causes.len(),
{
    if causes.len() == 0 {
        None
    } else {
        match causes[0].user_id {
            Some(u) => Some(u@),
            None => first_user(causes.drop_first()),
        }
    }
}

/// The first user named by a cause of the actions; "Jenkins" when none is.
pub open spec fn author_of(actions: Seq<BuildAction>) -> Seq<char>
    decreases actions.len(),
{
    if actions.len() == 0 {
        "Jenkins"@
    } else {
        match match actions[0].causes {
            Some(cs) => first_user(cs@),
            None => None,
        } {
            Some(u) => u,
            None => author_of(actions.drop_first()),
        }
    }
}

fn action_branch_exec(a: &BuildAction) -> (r: Option<&String>)
    ensures
        match action_branch(*a) {
            Some(n) => r matches Some(s) && s@ == n,
            None => r is None,
        },
{
    match &a.last_built_revision {
        Some(rev) => match &rev.branch {
            Some(bs) => if bs.len() > 0 {
                match &bs[0].name {
                    Some(n) => Some(n),
                    None => None,
                }
            } else {
                None
            },
            None => None,
        },
        None => None,
    }
}

/// The branch the build ran for.
pub fn extract_branch(detail: &BuildDetail) -> (r: String)
    ensures
        r@ == branch_of(detail.actions@),
{
    let actions = &detail.actions;
    let n = actions.len();
    let mut i: usize = 0;
    assert(actions@.skip(0) =~= actions@);
    while i < n
        invariant
            n == actions@.len(),
            actions@ == detail.actions@,
            i <= n,
            branch_of(actions@.skip(i as int)) == branch_of(actions@),
        decreases n - i,
    {
        assert(actions@.skip(i as int).drop_first() =~= actions@.skip(i + 1));
        assert(actions@.skip(i as int)[0] == actions@[i as int]);
        if let Some(name) = action_branch_exec(&actions[i]) {
            let clean = match strip_prefix(name.as_str(), "refs/remotes/origin/") {
                Some(t) => t,
                None => match strip_prefix(name.as_str(), "refs/heads/") {
                    Some(t) => t,
                    None => name.clone(),
                },
            };
            assert(actions@.skip(i as int).len() > 0);
            assert(clean@ == clean_branch(name@));
            assert(branch_of(actions@.skip(i as int)) == clean_branch(name@));
            return clean;
        }
        i = i + 1;
    }
    "unknown".to_owned()
}

/// The commit the build ran for.
pub fn extract_commit_sha(detail: &BuildDetail) -> (r: String)
    ensures
        r@ == sha_of(detail.actions@),
{
    let actions = &detail.actions;
    let n = actions.len();
    let mut i: usize = 0;
    assert(actions@.skip(0) =~= actions@);
    while i < n
        invariant
            n == actions@.len(),
            actions@ == detail.actions@,
            i <= n,
            sha_of(actions@.skip(i as int)) == sha_of(actions@),
        decreases n - i,
    {
        assert(actions@.skip(i as int).drop_first() =~= actions@.skip(i + 1));
        assert(actions@.skip(i as int)[0] == actions@[i as int]);
        if let Some(rev) = &actions[i].last_built_revision {
            if let Some(sha) = &rev.sha1 {
                assert(actions@.skip(i as int).len() > 0);
                assert(sha_of(actions@.skip(i as int)) == sha@);
                return sha.clone();
            }
        }
        i = i + 1;
    }
    String::new()
}

fn first_user_exec(causes: &Vec<Cause>) -> (r: Option<&String>)
    ensures
        match first_user(causes@) {
            Some(u) => r matches Some(s) && s@ == u,
            None => r is None,
        },
{
    let n = causes.len();
    let mut i: usize = 0;
    assert(causes@.skip(0) =~= causes@);
    while i < n
        invariant
            n == causes@.len(),
            i <= n,
            first_user(causes@.skip(i as int)) == first_user(causes@),
        decreases n - i,
    {
        assert(causes@.skip(i as int).drop_first() =~= causes@.skip(i + 1));
        assert(causes@.skip(i as int)[0] == causes@[i as int]);
        if let Some(user) = &causes[i].user_id {
            return Some(user);
        }
        i = i + 1;
    }
    None
}

/// Who started the build.
pub fn extract_author(detail: &BuildDetail) -> (r: String)
    ensures
        r@ == author_of(detail.actions@),
{
    let actions = &detail.actions;
    let n = actions.len();
    let mut i: usize = 0;
    assert(actions@.skip(0) =~= actions@);
    while i < n
        invariant
            n == actions@.len(),
            actions@ == detail.actions@,
            i <= n,
            author_of(actions@.skip(i as int)) == author_of(actions@),
        decreases n - i,
    {
        assert(actions@.skip(i as int).drop_first() =~= actions@.skip(i + 1));
        assert(actions@.skip(i as int)[0] == actions@[i as int]);
        if let Some(causes) = &actions[i].causes {
            if let Some(user) = first_user_exec(causes) {
                assert(actions@.skip(i as int).len() > 0);
                assert(author_of(actions@.skip(i as int)) == user@);
                return user.clone();
            }
        }
        i = i + 1;
    }
    "Jenkins".to_owned()
}

// ---------------------------------------------------------------------------
// Build → pipeline
// ---------------------------------------------------------------------------

/// The times of a build and its stages can be added up the way the
/// conversion does (`chrono` panics on any other).
pub open spec fn build_fits(detail: BuildDetail, stages: Seq<WfapiStage>, now: i64) -> bool {
    &&& (detail.duration > 0 ==> signed_ms(detail.duration) != i64::MIN && in_instant_range(
        instant_or(detail.timestamp, now) + signed_ms(detail.duration),
    ))
    &&& forall|i: int|
        0 <= i < stages.len() ==> match (#[trigger] stages[i]).duration_millis {
            Some(d) => signed_ms(d) != i64::MIN && match stages[i].start_time_millis {
                Some(s) => in_instant_range(instant_or(s, now) + signed_ms(d)),
                None => true,
            },
            None => true,
        }
}

/// The stage made of workflow stage `w`, the `i`-th of build `number` of
/// `job_name`.
pub open spec fn wf_stage(s: Stage, w: WfapiStage, i: int, job_name: Seq<char>, base_url: Seq<char>, number: u32, now: i64) -> bool {
    let start = match w.start_time_millis {
        Some(m) => Some(instant_or(m, now)),
        None => None,
    };
    let dur = match w.duration_millis {
        Some(d) => Some(signed_ms(d)),
        None => None,
    };
    &&& s.id@ == job_name + "__"@ + decimal(number as nat) + "_"@ + w.id@
    &&& s.name@ == w.name@
    &&& s.status == wf_stage_status(w.status@)
    &&& s.started_at == start
    &&& s.finished_at == match (start, dur) {
        (Some(a), Some(d)) => Some((a + d) as i64),
        _ => None,
    }
    &&& s.duration == dur
    &&& s.log_url matches Some(u) && u@ == base_url + "/job/"@ + job_name + "/"@ + decimal(
        number as nat,
    ) + "/execution/node/"@ + w.id@ + "/log"@
    &&& s.order == i
}

/// The pipeline made of build `d` of `job_name` with its workflow stages,
/// `now` standing in for timestamps `chrono` cannot represent.
pub open spec fn build_pipeline(p: Pipeline, d: BuildDetail, stages: Seq<WfapiStage>, job_name: Seq<char>, base_url: Seq<char>, now: i64) -> bool {
    let started = instant_or(d.timestamp, now);
    let dur = if d.duration > 0 {
        Some(signed_ms(d.duration))
    } else {
        None
    };
    &&& p.id@ == "jenkins-"@ + job_name + "-"@ + decimal(d.number as nat)
    &&& p.name@ == job_name
    &&& p.source@ == "Jenkins"@
    &&& p.repository@ == job_name
    &&& p.branch@ == branch_of(d.actions@)
    &&& p.status == build_status(opt_view(d.result), d.in_progress)
    &&& p.build_number == d.number
    &&& p.started_at == started
    &&& p.duration == dur
    &&& p.finished_at == match dur {
        Some(x) => Some((started + x) as i64),
        None => None,
    }
    &&& p.stages@.len() == stages.len()
    &&& forall|i: int|
        0 <= i < stages.len() ==> wf_stage(
            #[trigger] p.stages@[i],
            stages[i],
            i,
            job_name,
            base_url,
            d.number,
            now,
        )
    &&& p.url@ == d.url@
    &&& p.commit_sha@ == sha_of(d.actions@)
    &&& p.commit_message@ == match d.full_display_name {
        Some(n) => n@,
        None => match d.display_name {
            Some(n) => n@,
            None => job_name + " #"@ + decimal(d.number as nat),
        },
    }
    &&& p.author@ == author_of(d.actions@)
}

fn wf_to_stage(w: &WfapiStage, i: usize, job_name: &str, base_url: &str, number: u32, now: i64) -> (s: Stage)
    requires
        is_instant(now),
        match w.duration_millis {
            Some(d) => signed_ms(d) != i64::MIN && match w.start_time_millis {
                Some(m) => in_instant_range(instant_or(m, now) + signed_ms(d)),
                None => true,
            },
            None => true,
        },
    ensures
        wf_stage(s, *w, i as int, job_name@, base_url@, number, now),
{
    let start = match w.start_time_millis {
        Some(m) => Some(instant_or_now(m, now)),
        None => None,
    };
    #[verifier::truncate]
    let dur = match w.duration_millis {
        Some(d) => Some(d as i64),
        None => None,
    };
    let end = match (start, dur) {
        (Some(a), Some(d)) => Some(a + d),
        _ => None,
    };
    let mut id = job_name.to_owned();
    push_str(&mut id, "__");
    push_decimal(&mut id, number as u64);
    push_str(&mut id, "_");
    push_str(&mut id, w.id.as_str());
    let mut url = base_url.to_owned();
    push_str(&mut url, "/job/");
    push_str(&mut url, job_name);
    push_str(&mut url, "/");
    push_decimal(&mut url, number as u64);
    push_str(&mut url, "/execution/node/");
    push_str(&mut url, w.id.as_str());
    push_str(&mut url, "/log");
    assert(id@ =~= job_name@ + "__"@ + decimal(number as nat) + "_"@ + w.id@);
    assert(url@ =~= base_url@ + "/job/"@ + job_name@ + "/"@ + decimal(number as nat)
        + "/execution/node/"@ + w.id@ + "/log"@);
    Stage {
        id,
        name: w.name.clone(),
        status: map_stage_status(w.status.as_str()),
        started_at: start,
        finished_at: end,
        duration: dur,
        log_url: Some(url),
        order: i,
    }
}

/// Convert a build and its workflow stages into a `Pipeline`, `now`
/// standing in for timestamps beyond what `chrono` represents.
pub fn build_to_pipeline_at(detail: BuildDetail, stages: Vec<WfapiStage>, job_name: &str, base_url: &str, now: i64) -> (p: Pipeline)
    requires
        is_instant(now),
        build_fits(detail, stages@, now),
    ensures
        build_pipeline(p, detail, stages@, job_name@, base_url@, now),
{
    let status = map_build_status(&detail.result, detail.in_progress);
    let started_at = instant_or_now(detail.timestamp, now);
    #[verifier::truncate]
    let duration = if detail.duration > 0 {
        Some(detail.duration as i64)
    } else {
        None
    };
    let finished_at = match duration {
        Some(d) => Some(started_at + d),
        None => None,
    };
    let mut pipeline_stages: Vec<Stage> = Vec::new();
    let n = stages.len();
    let mut i: usize = 0;
    while i < n
        invariant
            n == stages@.len(),
            i <= n,
            is_instant(now),
            build_fits(detail, stages@, now),
            pipeline_stages@.len() == i,
            forall|k: int|
                0 <= k < i ==> wf_stage(
                    #[trigger] pipeline_stages@[k],
                    stages@[k],
                    k,
                    job_name@,
                    base_url@,
                    detail.number,
                    now,
                ),
        decreases n - i,
    {
        assert(match (stages@[i as int]).duration_millis {
            Some(d) => signed_ms(d) != i64::MIN && match stages@[i as int].start_time_millis {
                Some(s) => in_instant_range(instant_or(s, now) + signed_ms(d)),
                None => true,
            },
            None => true,
        });
        let s = wf_to_stage(&stages[i], i, job_name, base_url, detail.number, now);
        pipeline_stages.push(s);
        i = i + 1;
    }
    let branch = extract_branch(&detail);
    let commit_sha = extract_commit_sha(&detail);
    let author = extract_author(&detail);
    let display_name = match &detail.full_display_name {
        Some(n) => n.clone(),
        None => match &detail.display_name {
            Some(n) => n.clone(),
            None => {
                let mut t = job_name.to_owned();
                push_str(&mut t, " #");
                push_decimal(&mut t, detail.number as u64);
                assert(t@ =~= job_name@ + " #"@ + decimal(detail.number as nat));
                t
            },
        },
    };
    let mut id = "jenkins-".to_owned();
    push_str(&mut id, job_name);
    push_str(&mut id, "-");
    push_decimal(&mut id, detail.number as u64);
    assert(id@ =~= "jenkins-"@ + job_name@ + "-"@ + decimal(detail.number as nat));
    Pipeline {
        id,
        name: job_name.to_owned(),
        source: "Jenkins".to_owned(),
        repository: job_name.to_owned(),
        branch,
        status,
        build_number: detail.number,
        started_at,
        finished_at,
        duration,
        stages: pipeline_stages,
        url: detail.url,
        commit_sha,
        commit_message: display_name,
        author,
    }
}

fn fits(detail: &BuildDetail, stages: &Vec<WfapiStage>, now: i64) -> (r: bool)
    requires
        is_instant(now),
    ensures
        r == build_fits(*detail, stages@, now),
{
    if detail.duration > 0 {
        let start = instant_or_now(detail.timestamp, now);
        #[verifier::truncate]
        let d = detail.duration as i64;
        if d == i64::MIN {
            return false;
        }
        let end: i128 = start as i128 + d as i128;
        if end < MIN_INSTANT_MS as i128 || end > MAX_INSTANT_MS as i128 {
            return false;
        }
    }
    let n = stages.len();
    let mut i: usize = 0;
    while i < n
        invariant
            n == stages@.len(),
            i <= n,
            is_instant(now),
            forall|k: int|
                0 <= k < i ==> match (#[trigger] stages@[k]).duration_millis {
                    Some(d) => signed_ms(d) != i64::MIN && match stages@[k].start_time_millis {
                        Some(s) => in_instant_range(instant_or(s, now) + signed_ms(d)),
                        None => true,
                    },
                    None => true,
                },
        decreases n - i,
    {
        if let Some(dm) = stages[i].duration_millis {
            #[verifier::truncate]
            let d = dm as i64;
            if d == i64::MIN {
                return false;
            }
            if let Some(sm) = stages[i].start_time_millis {
                let start = instant_or_now(sm, now);
                let end: i128 = start as i128 + d as i128;
                if end < MIN_INSTANT_MS as i128 || end > MAX_INSTANT_MS as i128 {
                    return false;
                }
            }
        }
        i = i + 1;
    }
    true
}

/// Convert a build and its workflow stages into a `Pipeline`.  Timestamps
/// beyond what `chrono` represents stand for the current time.  `None` when
/// an end time (start plus duration) would leave `chrono`'s range.
pub fn build_to_pipeline(detail: BuildDetail, stages: Vec<WfapiStage>, job_name: &str, base_url: &str) -> (r: Option<Pipeline>)
    ensures
        match r {
            Some(p) => exists|now: i64|
                is_instant(now) && build_fits(detail, stages@, now) && #[trigger] build_pipeline(
                    p,
                    detail,
                    stages@,
                    job_name@,
                    base_url@,
                    now,
                ),
            None => exists|now: i64| is_instant(now) && !#[trigger] build_fits(detail, stages@, now),
        },
{
    let now = now_millis();
    if !fits(&detail, &stages, now) {
        assert(!build_fits(detail, stages@, now));
        return None;
    }
    let ghost d = detail;
    let ghost s = stages@;
    let p = build_to_pipeline_at(detail, stages, job_name, base_url, now);
    assert(build_pipeline(p, d, s, job_name@, base_url@, now));
    Some(p)
}

// ---------------------------------------------------------------------------
// Requests
// ---------------------------------------------------------------------------

/// What a Jenkins source's configuration gives the client: the base URL
/// without trailing slashes, the jobs, and the credentials when both a user
/// name and a token are known.  `username` and `token` are what the
/// environment resolved for them.
pub fn source_settings(cfg: &SourceConfig, username: Result<Option<String>, ArgusError>, token: Option<String>) -> (r: Result<(String, Vec<String>, Option<(String, String)>), ArgusError>)
    ensures
        match r {
            Ok((base, jobs, creds)) => (cfg.url matches Some(u) && base@ == trim_end_char(u@, '/'))
                && (cfg.jobs matches Some(l) && jobs@ == l@) && (username matches Ok(un) && match (
                un,
                token,
            ) {
                (Some(a), Some(b)) => creds == Some((a, b)),
                _ => creds is None,
            }),
            Err(e) => if cfg.url is None {
                e@ == ArgusErrorView::Api(ApiErrorView::RequestFailed("Jenkins source missing 'url'"@))
            } else if cfg.jobs is None {
                e@ == ArgusErrorView::Api(
                    ApiErrorView::RequestFailed("Jenkins source missing 'jobs'"@),
                )
            } else {
                username matches Err(f) && e == f
            },
        },
{
    let base = match &cfg.url {
        Some(u) => trim_end_matches(u.as_str(), '/'),
        None => {
            return Err(
                ArgusError::Api(ApiError::RequestFailed("Jenkins source missing 'url'".to_owned())),
            )
        },
    };
    let jobs = match &cfg.jobs {
        Some(l) => crate::config::clone_strings(l),
        None => {
            return Err(
                ArgusError::Api(ApiError::RequestFailed("Jenkins source missing 'jobs'".to_owned())),
            )
        },
    };
    let user = match username {
        Ok(u) => u,
        Err(e) => {
            return Err(e);
        },
    };
    let credentials = match (user, token) {
        (Some(a), Some(b)) => Some((a, b)),
        _ => None,
    };
    Ok((base, jobs, credentials))
}

/// URL of the summary of `job` with its last build.
pub fn summary_url(base: &str, job: &str) -> (r: String)
    ensures
        r@ == base@ + "/job/"@ + job@ + "/api/json?tree=name,url,lastBuild[number,url]"@,
{
    let mut r = base.to_owned();
    push_str(&mut r, "/job/");
    push_str(&mut r, job);
    push_str(&mut r, "/api/json?tree=name,url,lastBuild[number,url]");
    r
}

/// The tree of fields asked for with a build's details.
pub open spec fn detail_tree() -> Seq<char> {
    "/api/json?tree=number,result,inProgress,timestamp,duration,estimatedDuration,url,displayName,fullDisplayName,actions[causes[shortDescription,userId],remoteUrls,lastBuiltRevision[SHA1,branch[name]],parameters[name,value]]"@
}

fn build_url(base: &str, job: &str, build: u32, tail: &str) -> (r: String)
    ensures
        r@ == base@ + "/job/"@ + job@ + "/"@ + decimal(build as nat) + tail@,
{
    let mut r = base.to_owned();
    push_str(&mut r, "/job/");
    push_str(&mut r, job);
    push_str(&mut r, "/");
    push_decimal(&mut r, build as u64);
    push_str(&mut r, tail);
    r
}

/// URL of the details of build `build` of `job`.
pub fn detail_url(base: &str, job: &str, build: u32) -> (r: String)
    ensures
        r@ == base@ + "/job/"@ + job@ + "/"@ + decimal(build as nat) + detail_tree(),
{
    build_url(
        base,
        job,
        build,
        "/api/json?tree=number,result,inProgress,timestamp,duration,estimatedDuration,url,displayName,fullDisplayName,actions[causes[shortDescription,userId],remoteUrls,lastBuiltRevision[SHA1,branch[name]],parameters[name,value]]",
    )
}

/// URL of the workflow description (stages) of build `build` of `job`.
pub fn wfapi_url(base: &str, job: &str, build: u32) -> (r: String)
    ensures
        r@ == base@ + "/job/"@ + job@ + "/"@ + decimal(build as nat) + "/wfapi/describe"@,
{
    build_url(base, job, build, "/wfapi/describe")
}

/// URL of the console output of build `build` of `job`.
pub fn console_url(base: &str, job: &str, build: u32) -> (r: String)
    ensures
        r@ == base@ + "/job/"@ + job@ + "/"@ + decimal(build as nat) + "/consoleText"@,
{
    build_url(base, job, build, "/consoleText")
}

/// URL used to check the connection and the credentials.
pub fn connection_url(base: &str) -> (r: String)
    ensures
        r@ == base@ + "/api/json?tree=mode"@,
{
    let mut r = base.to_owned();
    push_str(&mut r, "/api/json?tree=mode");
    r
}

// ---------------------------------------------------------------------------
// Logs
// ---------------------------------------------------------------------------

/// The index of the last `__` in `s`, or -1.
pub open spec fn last_double_underscore(s: Seq<char>) -> int
    decreases s.len(),
{
    if s.len() < 2 {
        -1
    } else if s[s.len() - 2] == '_' && s[s.len() - 1] == '_' {
        s.len() - 2
    } else {
        last_double_underscore(s.drop_last())
    }
}

proof fn lemma_last_double_underscore(s: Seq<char>)
    ensures
        -1 <= last_double_underscore(s),
        last_double_underscore(s) >= 0 ==> last_double_underscore(s) + 2 <= s.len(),
        last_double_underscore(s) >= 0 ==> s[last_double_underscore(s)] == '_' && s[last_double_underscore(s) + 1] == '_',
    decreases s.len(),
{
    if s.len() >= 2 && !(s[s.len() - 2] == '_' && s[s.len() - 1] == '_') {
        lemma_last_double_underscore(s.drop_last());
        let d = s.drop_last();
        assert forall|i: int| 0 <= i < d.len() implies d[i] == s[i] by {}
    }
}

/// The job and build whose console log holds the log of a stage with id
/// `{job}__{n}_{stage}` (see `wf_stage`): the job is what comes before the
/// last `__`, the build the number between it and the next `_`; ids of
/// another shape give an error.
pub open spec fn jenkins_log_target(sid: Seq<char>) -> Result<(Seq<char>, u32), ApiErrorView> {
    let d = last_double_underscore(sid);
    if d < 0 {
        Err(ApiErrorView::RequestFailed("Invalid stage_id: "@ + sid))
    } else {
        let rest = sid.skip(d + 2);
        match rest.index_of_first('_') {
            None => Err(ApiErrorView::RequestFailed("Invalid stage_id: "@ + sid)),
            Some(j) => match parse_unsigned_spec(rest.take(j), u32::MAX as int) {
                None => Err(ApiErrorView::RequestFailed("Invalid build number in: "@ + sid)),
                Some(b) => Ok((sid.take(d), b as u32)),
            },
        }
    }
}

/// The stage ids the pipeline conversion writes read back as the job and
/// build they were made of, where the workflow stage id has no `_`.
pub proof fn lemma_log_target_of_stage_id(job: Seq<char>, number: u32, w: Seq<char>)
    requires
        !w.contains('_'),
    ensures
        jenkins_log_target(job + "__"@ + decimal(number as nat) + "_"@ + w) == Ok::<(Seq<char>, u32), ApiErrorView>((job, number)),
{
    reveal_strlit("__");
    reveal_strlit("_");
    let num = decimal(number as nat);
    let tail = num + "_"@ + w;
    lemma_tail_shape(num, w);
    let sid = job + "__"@ + tail;
    assert(sid =~= job + "__"@ + num + "_"@ + w);
    lemma_last_in_tail(job, tail, sid.len() as int);
    assert(sid.take(sid.len() as int) =~= sid);
    assert(last_double_underscore(sid) == job.len());
    let rest = sid.skip(job.len() + 2int);
    assert(rest =~= tail);
    assert(tail.index_of_first('_') == Some(num.len() as int)) by {
        tail.index_of_first_ensures('_');
        assert(tail[num.len() as int] == '_');
        assert(tail.contains('_'));
        lemma_decimal_value(number as nat);
        assert forall|j: int| 0 <= j < num.len() implies tail[j] != '_' by {
            assert(tail[j] == num[j]);
            assert(is_digit(num[j]));
        }
    }
    assert(tail.take(num.len() as int) =~= num);
    assert(sid.take(job.len() as int) =~= job);
    lemma_decimal_parses(number as nat, u32::MAX as int);
}

/// The tail `{n}_{w}` of a stage id holds no `__` and starts with a digit.
proof fn lemma_tail_shape(num: Seq<char>, w: Seq<char>)
    requires
        !w.contains('_'),
        exists|n: nat| num == decimal(n),
    ensures
        forall|i: int| 0 <= i < (num + "_"@ + w).len() - 1 ==> !(#[trigger] (num + "_"@ + w)[i] == '_' && (num + "_"@ + w)[i + 1] == '_'),
        (num + "_"@ + w)[0] != '_',
        (num + "_"@ + w)[num.len() as int] == '_',
        forall|i: int| 0 <= i < num.len() ==> (num + "_"@ + w)[i] == #[trigger] num[i],
{
    reveal_strlit("_");
    let n = choose|n: nat| num == decimal(n);
    lemma_decimal_value(n);
    let tail = num + "_"@ + w;
    assert forall|i: int| 0 <= i < num.len() implies #[trigger] num[i] != '_' by {
        assert(is_digit(num[i]));
    }
    assert forall|i: int| 0 <= i < w.len() implies #[trigger] w[i] != '_' by {
        if w[i] == '_' {
            assert(w.contains('_'));
        }
    }
    assert forall|i: int| 0 <= i < tail.len() - 1 implies !(#[trigger] tail[i] == '_' && tail[i + 1] == '_') by {
        if i < num.len() {
            assert(tail[i] == num[i]);
        } else if i == num.len() {
            assert(tail[i + 1] == w[0]);
        } else {
            assert(tail[i] == w[i - num.len() - 1]);
        }
    }
    assert(tail[0] == num[0]);
}

proof fn lemma_last_in_tail(job: Seq<char>, tail: Seq<char>, k: int)
    requires
        job.len() + 2 <= k <= job.len() + 2 + tail.len(),
        forall|i: int| 0 <= i < tail.len() - 1 ==> !(#[trigger] tail[i] == '_' && tail[i + 1] == '_'),
        tail.len() >= 1 ==> tail[0] != '_',
    ensures
        last_double_underscore((job + "__"@ + tail).take(k)) == job.len(),
    decreases k,
{
    reveal_strlit("__");
    let sid = job + "__"@ + tail;
    let t = sid.take(k);
    if k == job.len() + 2 {
        assert(t[k - 2] == sid[job.len() as int]);
        assert(t[k - 1] == sid[job.len() + 1int]);
    } else {
        assert(t.drop_last() =~= sid.take(k - 1));
        let i = k - 2 - (job.len() + 2);
        if i >= 0 {
            assert(t[k - 2] == tail[i] && t[k - 1] == tail[i + 1]);
        } else {
            assert(t[k - 1] == tail[0]);
        }
        lemma_last_in_tail(job, tail, k - 1);
    }
}

fn request_failed(prefix: &str, id: &str) -> (e: ArgusError)
    ensures
        e@ == ArgusErrorView::Api(ApiErrorView::RequestFailed(prefix@ + id@)),
{
    let mut m = prefix.to_owned();
    push_str(&mut m, id);
    ArgusError::Api(ApiError::RequestFailed(m))
}

/// Find the job and build whose console log holds a stage's log.
pub fn log_target(stage_id: &str) -> (r: Result<(String, u32), ArgusError>)
    ensures
        match jenkins_log_target(stage_id@) {
            Ok((j, b)) => r matches Ok((k, c)) && k@ == j && c == b,
            Err(e) => r matches Err(f) && f@ == ArgusErrorView::Api(e),
        },
{
    let s = stage_id;
    let n = s.unicode_len();
    let mut k: usize = n;
    proof {
        lemma_last_double_underscore(s@);
    }
    assert(s@.take(n as int) =~= s@);
    while k >= 2 && !(s.get_char(k - 2) == '_' && s.get_char(k - 1) == '_')
        invariant
            k <= n,
            n == s@.len(),
            last_double_underscore(s@.take(k as int)) == last_double_underscore(s@),
        decreases k,
    {
        assert(s@.take(k as int).drop_last() =~= s@.take(k - 1));
        k = k - 1;
    }
    if k < 2 {
        return Err(request_failed("Invalid stage_id: ", stage_id));
    }
    let d = k - 2;
    assert(last_double_underscore(s@) == d);
    let rest = s.substring_char(d + 2, n);
    assert(rest@ =~= s@.skip(d + 2));
    let m = rest.unicode_len();
    let mut j: usize = 0;
    while j < m && rest.get_char(j) != '_'
        invariant
            j <= m,
            m == rest@.len(),
            forall|i: int| 0 <= i < j ==> rest@[i] != '_',
        decreases m - j,
    {
        j = j + 1;
    }
    proof {
        rest@.index_of_first_ensures('_');
    }
    if j == m {
        assert(!rest@.contains('_'));
        return Err(request_failed("Invalid stage_id: ", stage_id));
    }
    assert(rest@.contains('_')) by {
        assert(rest@[j as int] == '_');
    }
    assert(rest@.index_of_first('_') == Some(j as int));
    let num = rest.substring_char(0, j);
    assert(num@ =~= rest@.take(j as int));
    let job = s.substring_char(0, d);
    assert(job@ =~= s@.take(d as int));
    match parse_unsigned(num, 4_294_967_295) {
        Some(b) => Ok((job.to_owned(), b as u32)),
        None => Err(request_failed("Invalid build number in: ", stage_id)),
    }
}

/// Split a console log into numbered entries.
pub fn console_entries(raw: &str) -> (r: Vec<LogEntry>)
    ensures
        plain_entries(raw@, r@),
{
    plain_log_entries(raw)
}

// ---------------------------------------------------------------------------
// Retries
// ---------------------------------------------------------------------------

/// The message for a 401 or 403 answer.
pub open spec fn auth_text() -> Seq<char> {
    "Jenkins authentication failed. Check username and API token."@
}

/// What the Jenkins client does after an attempt at `url`.  It has no rule
/// of its own for 429, and a server error with no retry left fails as an
/// unexpected status.
pub open spec fn jenkins_retry(p: RetryPolicy, st: RetryState, url: Seq<char>, o: AttemptView) -> (RetryState, RetryDecisionView) {
    match o {
        AttemptView::Response { status, retry_after } => if status == 401 || status == 403 {
            (st, RetryDecisionView::Fail(ApiErrorView::AuthFailed(auth_text())))
        } else if status == 404 {
            (st, RetryDecisionView::Fail(ApiErrorView::NotFound(url)))
        } else if is_server_error(status) && st.attempt < p.max_retries {
            backoff_or_fail(
                p,
                st,
                ApiErrorView::ApiError {
                    status,
                    message: "Unexpected status from Jenkins: "@ + http_status_text(status),
                },
            )
        } else if !is_success(status) {
            (
                st,
                RetryDecisionView::Fail(
                    ApiErrorView::ApiError {
                        status,
                        message: "Unexpected status from Jenkins: "@ + http_status_text(status),
                    },
                ),
            )
        } else {
            (st, RetryDecisionView::Proceed)
        },
        AttemptView::NetworkError(m) => backoff_or_fail(p, st, ApiErrorView::Network(m)),
    }
}

/// An authentication refusal (401 or 403) ends the Jenkins retry loop at
/// once with an authentication error and leaves the retry state as it was;
/// the loop waits only after a server error (5xx) or a network error, and
/// goes on with the answer exactly when its status is a success (2xx).
pub proof fn lemma_jenkins_auth_not_retried(p: RetryPolicy, st: RetryState, url: Seq<char>, o: AttemptView)
    ensures
        (o matches AttemptView::Response { status, .. } && (status == 401 || status == 403)) ==> jenkins_retry(p, st, url, o).0
            == st && jenkins_retry(p, st, url, o).1 matches RetryDecisionView::Fail(ApiErrorView::AuthFailed(_)),
        (jenkins_retry(p, st, url, o).1 is WaitSeconds || jenkins_retry(p, st, url, o).1 is WaitMillis) ==> (o is NetworkError || (
        o matches AttemptView::Response { status, .. } && 500 <= status <= 599)),
        jenkins_retry(p, st, url, o).1 is Proceed <==> (o matches AttemptView::Response { status, .. } && 200 <= status
            <= 299),
{
}

/// Every step of the Jenkins retry loop keeps to the retry policy (see
/// `retry_step_ok`), so a request is tried at most `max_retries + 1` times.
pub proof fn lemma_jenkins_retry_bounded(p: RetryPolicy, st: RetryState, url: Seq<char>, o: AttemptView)
    ensures
        retry_step_ok(p, st, jenkins_retry(p, st, url, o).0, jenkins_retry(p, st, url, o).1),
{
}


/// Decide what to do after an attempt of a Jenkins request to `url`.
pub fn retry_decision(p: &RetryPolicy, st: &mut RetryState, url: &str, outcome: Attempt) -> (d: RetryDecision)
    requires
        outcome matches Attempt::Response { status, .. } ==> 100 <= status <= 999,
    ensures
        (*final(st), d@) == jenkins_retry(*p, *old(st), url@, outcome@),
        (outcome matches Attempt::Response { status, .. } && (status == 401 || status == 403))
            ==> *final(st) == *old(st) && d@ matches RetryDecisionView::Fail(
            ApiErrorView::AuthFailed(_),
        ),
        (d@ is WaitSeconds || d@ is WaitMillis) ==> (outcome is NetworkError || (
        outcome matches Attempt::Response { status, .. } && 500 <= status <= 599)),
        d@ is Proceed <==> (outcome matches Attempt::Response { status, .. } && 200 <= status
            <= 299),
{
    proof {
        lemma_jenkins_auth_not_retried(*p, *old(st), url@, outcome@);
    }
    match outcome {
        Attempt::Response { status, retry_after: _ } => {
            if status == 401 || status == 403 {
                RetryDecision::Fail(
                    ApiError::AuthFailed(
                        "Jenkins authentication failed. Check username and API token.".to_owned(),
                    ),
                )
            } else if status == 404 {
                RetryDecision::Fail(ApiError::NotFound(url.to_owned()))
            } else if !(200 <= status && status <= 299) {
                let mut message = "Unexpected status from Jenkins: ".to_owned();
                let t = status_text(status);
                push_str(&mut message, t.as_str());
                let e = ApiError::ApiError { status, message };
                if 500 <= status && status <= 599 && st.attempt < p.max_retries {
                    backoff_step(p, st, e)
                } else {
                    RetryDecision::Fail(e)
                }
            } else {
                RetryDecision::Proceed
            }
        },
        Attempt::NetworkError(m) => backoff_step(p, st, ApiError::Network(m)),
    }
}

} // verus!
