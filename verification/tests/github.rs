use argus::api::github::{
    job_log_url, jobs_url, map_pipeline_status, map_stage_status, parse_log_lines, retry_decision,
    run_to_pipeline, runs_url, Job, WorkflowRun,
};
use argus::api::traits::{Attempt, RetryDecision, RetryPolicy, RetryState};
use argus::models::{PipelineStatus, StageStatus};
use argus::utils::error::ApiError;

#[test]
fn github_statuses_follow_status_and_conclusion() {
    let done = |c: &str| map_pipeline_status("completed", &Some(c.to_string()));
    assert_eq!(done("success"), PipelineStatus::Success);
    assert_eq!(done("failure"), PipelineStatus::Failed);
    assert_eq!(done("timed_out"), PipelineStatus::Failed);
    assert_eq!(done("cancelled"), PipelineStatus::Cancelled);
    assert_eq!(done("skipped"), PipelineStatus::Skipped);
    assert_eq!(map_pipeline_status("in_progress", &None), PipelineStatus::Running);
    assert_eq!(map_pipeline_status("queued", &None), PipelineStatus::Pending);
    assert_eq!(map_stage_status("completed", &Some("cancelled".to_string())), StageStatus::Skipped);
    assert_eq!(map_stage_status("in_progress", &None), StageStatus::Running);
}

#[test]
fn github_log_lines_read_leading_timestamps() {
    let raw = "2024-01-02T03:04:05.123456789Z   hello world\nshort\nthis line is certainly longer than thirty bytes";
    let entries = parse_log_lines(raw);
    assert_eq!(entries.len(), 3);
    assert_eq!(entries[0].line, 1);
    assert_eq!(entries[0].timestamp, Some((1_704_164_645, 123_456_789)));
    assert_eq!(entries[0].text, "hello world");
    assert_eq!(entries[1].timestamp, None);
    assert_eq!(entries[1].text, "short");
    assert_eq!(entries[2].timestamp, None);
    assert_eq!(entries[2].text, "this line is certainly longer than thirty bytes");
    assert_eq!(entries[2].line, 3);
}

#[test]
fn github_urls() {
    assert_eq!(
        runs_url("acme", "api", 10),
        "https://api.github.com/repos/acme/api/actions/runs?per_page=10&status="
    );
    assert_eq!(jobs_url("acme", "api", 77), "https://api.github.com/repos/acme/api/actions/runs/77/jobs");
    assert_eq!(job_log_url(5), "https://api.github.com/repos/actions/jobs/5/logs");
}

#[test]
fn github_run_becomes_pipeline() {
    let run = WorkflowRun {
        id: 123,
        name: Some("CI".to_string()),
        head_branch: Some("main".to_string()),
        head_sha: "0123456789abcdef".to_string(),
        status: "completed".to_string(),
        conclusion: Some("success".to_string()),
        created_at: 1_700_000_000_000,
        updated_at: 1_700_000_060_000,
        run_started_at: Some(1_700_000_000_000),
        html_url: "https://github.com/acme/api/actions/runs/123".to_string(),
        display_title: Some("Fix the build\n\nDetails".to_string()),
        actor: None,
        run_number: 9,
    };
    let job = Job {
        id: 55,
        name: "test".to_string(),
        status: "completed".to_string(),
        conclusion: Some("success".to_string()),
        started_at: Some(1_700_000_000_000),
        completed_at: Some(1_700_000_030_000),
    };
    let p = run_to_pipeline(&run, "api", "acme", vec![job]);
    assert_eq!(p.id, "github-api-123");
    assert_eq!(p.status, PipelineStatus::Success);
    assert_eq!(p.build_number, 9);
    assert_eq!(p.stages.len(), 1);
    assert_eq!(p.stages[0].status, StageStatus::Success);
    assert_eq!(p.stages[0].duration, Some(30_000));
    assert_eq!(p.short_commit_sha(), "0123456");
}

#[test]
fn github_retries_server_errors_with_growing_delays() {
    let policy = RetryPolicy { max_retries: 2, base_delay: 1000, max_delay: 1500 };
    let mut st = RetryState { attempt: 0, delay: 1000 };
    let d = retry_decision(&policy, &mut st, Attempt::Response { status: 503, retry_after: None });
    assert!(matches!(d, RetryDecision::WaitMillis(1000)));
    assert_eq!(st.attempt, 1);
    assert_eq!(st.delay, 1500);
    let d = retry_decision(&policy, &mut st, Attempt::NetworkError("reset".to_string()));
    assert!(matches!(d, RetryDecision::WaitMillis(1500)));
    let d = retry_decision(&policy, &mut st, Attempt::Response { status: 503, retry_after: None });
    match d {
        RetryDecision::Fail(ApiError::ApiError { status, message }) => {
            assert_eq!(status, 503);
            assert_eq!(message, "GitHub API server error after retries");
        }
        _ => panic!("expected failure"),
    }
    assert_eq!(st.attempt, 2);
}

#[test]
fn github_rate_limit_waits_for_retry_after() {
    let policy = RetryPolicy::default();
    let mut st = RetryState { attempt: 0, delay: 1000 };
    let d = retry_decision(
        &policy,
        &mut st,
        Attempt::Response { status: 429, retry_after: Some("7".to_string()) },
    );
    assert!(matches!(d, RetryDecision::WaitSeconds(7)));
    let d = retry_decision(
        &policy,
        &mut st,
        Attempt::Response { status: 429, retry_after: Some("soon".to_string()) },
    );
    assert!(matches!(d, RetryDecision::WaitSeconds(60)));
    assert_eq!(st.attempt, 2);
}

#[test]
fn github_auth_and_unexpected_statuses_fail_at_once() {
    let policy = RetryPolicy::default();
    let mut st = RetryState { attempt: 0, delay: 1000 };
    let d = retry_decision(&policy, &mut st, Attempt::Response { status: 401, retry_after: None });
    assert!(matches!(d, RetryDecision::Fail(ApiError::AuthFailed(_))));
    let d = retry_decision(&policy, &mut st, Attempt::Response { status: 404, retry_after: None });
    match d {
        RetryDecision::Fail(ApiError::ApiError { status, message }) => {
            assert_eq!(status, 404);
            assert_eq!(message, "Unexpected status from GitHub API: 404 Not Found");
        }
        _ => panic!("expected failure"),
    }
    let d = retry_decision(&policy, &mut st, Attempt::Response { status: 200, retry_after: None });
    assert!(matches!(d, RetryDecision::Proceed));
    assert_eq!(st.attempt, 0);
}

#[test]
fn github_log_line_with_seven_digit_fraction() {
    let entries = parse_log_lines("2024-01-15T10:30:45.1234567Z hello world");
    assert_eq!(entries.len(), 1);
    assert_eq!(entries[0].line, 1);
    assert_eq!(entries[0].timestamp, Some((1_705_314_645, 123_456_700)));
    assert_eq!(entries[0].text, "hello world");
}

#[test]
fn github_log_lines_without_timestamp_stay_whole() {
    let raw = format!("a{}", "é".repeat(16));
    let entries = parse_log_lines(&raw);
    assert_eq!(entries.len(), 1);
    assert_eq!(entries[0].timestamp, None);
    assert_eq!(entries[0].text, raw);
    let entries = parse_log_lines("not-a-time some text");
    assert_eq!(entries[0].timestamp, None);
    assert_eq!(entries[0].text, "not-a-time some text");
}
