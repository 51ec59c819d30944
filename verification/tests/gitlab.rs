use argus::api::gitlab::{
    retry_decision, encode_project, gl_pipeline_to_pipeline, log_target, map_job_status, map_pipeline_status,
    parse_log_lines, GitLabPipeline,
};
use argus::api::traits::{Attempt, RetryDecision, RetryPolicy, RetryState};
use argus::instant::now_millis;
use argus::utils::error::ApiError;
use argus::models::{PipelineStatus, StageStatus};

#[test]
fn test_map_pipeline_status() {
    assert_eq!(map_pipeline_status("success"), PipelineStatus::Success);
    assert_eq!(map_pipeline_status("running"), PipelineStatus::Running);
    assert_eq!(map_pipeline_status("failed"), PipelineStatus::Failed);
    assert_eq!(map_pipeline_status("pending"), PipelineStatus::Pending);
    assert_eq!(map_pipeline_status("canceled"), PipelineStatus::Cancelled);
    assert_eq!(map_pipeline_status("skipped"), PipelineStatus::Skipped);
    assert_eq!(map_pipeline_status("manual"), PipelineStatus::Skipped);
}

#[test]
fn test_map_job_status() {
    assert_eq!(map_job_status("success"), StageStatus::Success);
    assert_eq!(map_job_status("running"), StageStatus::Running);
    assert_eq!(map_job_status("failed"), StageStatus::Failed);
    assert_eq!(map_job_status("canceled"), StageStatus::Skipped);
}

#[test]
fn test_encode_project() {
    assert_eq!(encode_project("group/project"), "group%2Fproject");
    assert_eq!(encode_project("a/b/c"), "a%2Fb%2Fc");
}

#[test]
fn test_parse_log_lines() {
    let raw = "line one\nline two\nline three";
    let entries = parse_log_lines(raw);
    assert_eq!(entries.len(), 3);
    assert_eq!(entries[0].line, 1);
    assert_eq!(entries[0].text, "line one");
    assert_eq!(entries[2].line, 3);
}

#[test]
fn test_gl_pipeline_to_pipeline_basic() {
    let gl = GitLabPipeline {
        id: 999,
        iid: 42,
        branch: Some("develop".into()),
        status: "success".into(),
        created_at: now_millis(),
        updated_at: None,
        started_at: None,
        finished_at: None,
        web_url: "https://gitlab.com/org/proj/-/pipelines/999".into(),
        sha: "deadbeef1234".into(),
        source: Some("push".into()),
    };
    let pipeline = gl_pipeline_to_pipeline(&gl, vec![], "org/proj");
    assert_eq!(pipeline.id, "gitlab-org-proj-999");
    assert_eq!(pipeline.build_number, 42);
    assert_eq!(pipeline.branch, "develop");
    assert_eq!(pipeline.status, PipelineStatus::Success);
    assert_eq!(pipeline.repository, "org/proj");
}

#[test]
fn gitlab_log_target_finds_project_and_job() {
    let projects = vec!["org/proj".to_string(), "other/app".to_string()];
    let r = log_target(&projects, "gitlab-other-app-17", "4242");
    match r {
        Ok((project, job)) => {
            assert_eq!(project, "other/app");
            assert_eq!(job, 4242);
        }
        Err(_) => panic!("expected a target"),
    }
    assert!(log_target(&projects, "gitlab-unknown-1", "7").is_err());
    assert!(log_target(&projects, "gitlab-org-proj-1", "x7").is_err());
}

#[test]
fn gitlab_trace_lines_keep_crlf_out() {
    let entries = parse_log_lines("a\r\nb\n");
    assert_eq!(entries.len(), 2);
    assert_eq!(entries[0].text, "a");
    assert_eq!(entries[1].text, "b");
    assert!(entries[1].timestamp.is_none());
}

#[test]
fn gitlab_not_found_names_the_url() {
    let policy = RetryPolicy::default();
    let mut st = RetryState { attempt: 0, delay: 1000 };
    let d = retry_decision(&policy, &mut st, "https://gl/x", Attempt::Response { status: 404, retry_after: None });
    match d {
        RetryDecision::Fail(ApiError::NotFound(u)) => assert_eq!(u, "https://gl/x"),
        _ => panic!("expected not found"),
    }
    let d = retry_decision(&policy, &mut st, "u", Attempt::Response { status: 403, retry_after: None });
    match d {
        RetryDecision::Fail(ApiError::AuthFailed(m)) => {
            assert_eq!(m, "GitLab token is invalid or lacks required scopes (api, read_api).")
        }
        _ => panic!("expected an auth failure"),
    }
}

#[test]
fn gitlab_gives_up_after_the_last_retry() {
    let policy = RetryPolicy { max_retries: 1, base_delay: 10, max_delay: 100 };
    let mut st = RetryState { attempt: 0, delay: 10 };
    let d = retry_decision(&policy, &mut st, "u", Attempt::Response { status: 429, retry_after: None });
    assert!(matches!(d, RetryDecision::WaitSeconds(60)));
    let d = retry_decision(&policy, &mut st, "u", Attempt::Response { status: 429, retry_after: None });
    assert!(matches!(d, RetryDecision::Fail(ApiError::RateLimitExceeded)));
    assert_eq!(st.attempt, 1);
}

#[test]
fn gitlab_log_target_picks_the_exact_project() {
    let projects = vec!["org/api".to_string(), "org/api-v2".to_string()];
    match log_target(&projects, "gitlab-org-api-v2-5", "77") {
        Ok((project, job)) => {
            assert_eq!(project, "org/api-v2");
            assert_eq!(job, 77);
        }
        Err(_) => panic!("expected a target"),
    }
    match log_target(&projects, "gitlab-org-api-5", "78") {
        Ok((project, _)) => assert_eq!(project, "org/api"),
        Err(_) => panic!("expected a target"),
    }
    assert!(log_target(&projects, "gitlab-org-api-", "1").is_err());
}
