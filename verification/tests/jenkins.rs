use argus::api::jenkins::{retry_decision, log_target, map_build_status, map_stage_status, millis_to_datetime};
use argus::api::traits::{Attempt, RetryDecision, RetryPolicy, RetryState};
use argus::models::{PipelineStatus, StageStatus};
use argus::utils::error::ApiError;

#[test]
fn test_map_build_status() {
    assert_eq!(map_build_status(&Some("SUCCESS".to_string()), false), PipelineStatus::Success);
    assert_eq!(map_build_status(&Some("FAILURE".to_string()), false), PipelineStatus::Failed);
    assert_eq!(map_build_status(&Some("UNSTABLE".to_string()), false), PipelineStatus::Failed);
    assert_eq!(map_build_status(&Some("ABORTED".to_string()), false), PipelineStatus::Cancelled);
    assert_eq!(map_build_status(&None, true), PipelineStatus::Running);
    assert_eq!(map_build_status(&None, false), PipelineStatus::Pending);
}

#[test]
fn test_map_stage_status() {
    assert_eq!(map_stage_status("SUCCESS"), StageStatus::Success);
    assert_eq!(map_stage_status("FAILED"), StageStatus::Failed);
    assert_eq!(map_stage_status("IN_PROGRESS"), StageStatus::Running);
    assert_eq!(map_stage_status("NOT_EXECUTED"), StageStatus::Skipped);
    assert_eq!(map_stage_status("PAUSED"), StageStatus::Pending);
}

#[test]
fn test_millis_to_datetime() {
    let dt = millis_to_datetime(1_700_000_000_000);
    assert!(dt / 1000 > 0);
}

#[test]
fn millis_to_datetime_keeps_exact_value() {
    assert_eq!(millis_to_datetime(1_700_000_000_123), 1_700_000_000_123);
}

#[test]
fn jenkins_log_target_reads_the_stage_id() {
    match log_target("deploy-prod__57_12") {
        Ok((job, build)) => {
            assert_eq!(job, "deploy-prod");
            assert_eq!(build, 57);
        }
        Err(_) => panic!("expected a target"),
    }
    match log_target("my__job__8_3") {
        Ok((job, build)) => {
            assert_eq!(job, "my__job");
            assert_eq!(build, 8);
        }
        Err(_) => panic!("expected a target"),
    }
    assert!(log_target("jenkins-job-57").is_err());
    assert!(log_target("job__57").is_err());
    assert!(log_target("job__x_1").is_err());
}

#[test]
fn jenkins_server_errors_retry_then_fail() {
    let policy = RetryPolicy { max_retries: 1, base_delay: 10, max_delay: 100 };
    let mut st = RetryState { attempt: 0, delay: 10 };
    let d = retry_decision(&policy, &mut st, "u", Attempt::Response { status: 500, retry_after: None });
    assert!(matches!(d, RetryDecision::WaitMillis(10)));
    assert_eq!(st.delay, 20);
    let d = retry_decision(&policy, &mut st, "u", Attempt::Response { status: 500, retry_after: None });
    match d {
        RetryDecision::Fail(ApiError::ApiError { status, message }) => {
            assert_eq!(status, 500);
            assert_eq!(message, "Unexpected status from Jenkins: 500 Internal Server Error");
        }
        _ => panic!("expected failure"),
    }
    let d = retry_decision(&policy, &mut st, "u", Attempt::Response { status: 429, retry_after: None });
    assert!(matches!(d, RetryDecision::Fail(ApiError::ApiError { status: 429, .. })));
}
