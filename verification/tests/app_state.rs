use argus::instant::now_millis;
use argus::models::{Pipeline, PipelineStatus};
use argus::state::app_state::sort_pipelines;
use argus::state::{AppState, SourceStatus};

fn make_pipeline(id: &str, repo: &str, status: PipelineStatus) -> Pipeline {
    Pipeline {
        id: id.to_string(),
        name: "Test".into(),
        source: "GitHub Actions".into(),
        repository: repo.to_string(),
        branch: "main".into(),
        status,
        build_number: 1,
        started_at: now_millis(),
        finished_at: None,
        duration: None,
        stages: vec![],
        url: "https://example.com".into(),
        commit_sha: "abc1234".into(),
        commit_message: "test".into(),
        author: "dev".into(),
    }
}

#[test]
fn test_merge_replaces_same_repo() {
    let mut state = AppState::new();

    state.merge_pipelines(
        "my-github",
        vec![make_pipeline("github-api-1", "org/api", PipelineStatus::Success)],
    );
    assert_eq!(state.pipeline_count(), 1);

    state.merge_pipelines(
        "my-github",
        vec![make_pipeline("github-api-2", "org/api", PipelineStatus::Running)],
    );
    assert_eq!(state.pipeline_count(), 1);

    let pipelines = state.get_sorted_pipelines();
    assert_eq!(pipelines[0].id, "github-api-2");
}

#[test]
fn test_merge_preserves_other_repos() {
    let mut state = AppState::new();

    state.merge_pipelines(
        "source-a",
        vec![make_pipeline("github-api-1", "org/api", PipelineStatus::Success)],
    );
    state.merge_pipelines(
        "source-b",
        vec![make_pipeline("github-web-1", "org/web", PipelineStatus::Running)],
    );
    assert_eq!(state.pipeline_count(), 2);
}

#[test]
fn test_sorted_pipelines_order() {
    let mut state = AppState::new();
    state.merge_pipelines(
        "src",
        vec![
            make_pipeline("p1", "org/a", PipelineStatus::Success),
            make_pipeline("p2", "org/b", PipelineStatus::Running),
            make_pipeline("p3", "org/c", PipelineStatus::Failed),
        ],
    );

    let sorted = state.get_sorted_pipelines();
    assert_eq!(sorted[0].status, PipelineStatus::Running);
    assert_eq!(sorted[1].status, PipelineStatus::Failed);
    assert_eq!(sorted[2].status, PipelineStatus::Success);
}

#[test]
fn test_error_history_capped() {
    let mut state = AppState::new();
    state.max_errors = 3;

    for i in 0..5 {
        state.mark_source_error("src", &format!("error {}", i));
    }

    assert_eq!(state.errors.len(), 3);
    assert!(state.errors[0].message.contains("error 2"));
    assert!(state.errors[2].message.contains("error 4"));
}

#[test]
fn test_status_summary() {
    let mut state = AppState::new();
    state.merge_pipelines(
        "src",
        vec![
            make_pipeline("p1", "org/a", PipelineStatus::Running),
            make_pipeline("p2", "org/b", PipelineStatus::Failed),
            make_pipeline("p3", "org/c", PipelineStatus::Success),
            make_pipeline("p4", "org/d", PipelineStatus::Success),
        ],
    );

    let summary = state.status_summary();
    assert_eq!(summary.running, 1);
    assert_eq!(summary.failed, 1);
    assert_eq!(summary.success, 2);
}

#[test]
fn summary_counts_add_up() {
    let mut state = AppState::new();
    state.merge_pipelines(
        "src",
        vec![
            make_pipeline("p1", "org/a", PipelineStatus::Pending),
            make_pipeline("p2", "org/b", PipelineStatus::Cancelled),
            make_pipeline("p3", "org/c", PipelineStatus::Skipped),
        ],
    );
    let s = state.status_summary();
    assert_eq!(s.running + s.pending + s.failed + s.success + s.cancelled + s.skipped, state.pipeline_count());
    assert_eq!(s.pending, 1);
    assert_eq!(s.cancelled, 1);
    assert_eq!(s.skipped, 1);
}

#[test]
fn merge_replaces_what_the_same_source_sent() {
    let mut state = AppState::new();
    state.merge_pipelines(
        "a",
        vec![
            make_pipeline("x-1", "org/x", PipelineStatus::Success),
            make_pipeline("y-1", "org/y", PipelineStatus::Success),
        ],
    );
    state.merge_pipelines("b", vec![make_pipeline("z-1", "org/x", PipelineStatus::Failed)]);
    assert_eq!(state.pipeline_count(), 3);
    state.merge_pipelines("a", vec![make_pipeline("x-2", "org/x", PipelineStatus::Failed)]);
    let mut ids: Vec<String> = state.get_sorted_pipelines().iter().map(|p| p.id.clone()).collect();
    ids.sort();
    assert_eq!(ids, vec!["x-2".to_string(), "z-1".to_string()]);
}

#[test]
fn empty_batch_clears_the_source() {
    let mut state = AppState::new();
    state.merge_pipelines("a", vec![make_pipeline("p1", "org/x", PipelineStatus::Success)]);
    state.merge_pipelines("b", vec![make_pipeline("p2", "org/y", PipelineStatus::Success)]);
    state.merge_pipelines("a", vec![]);
    assert_eq!(state.pipeline_count(), 1);
    assert_eq!(state.get_sorted_pipelines()[0].id, "p2");
    assert!(matches!(state.source_status[0].1, SourceStatus::Connected));
    assert_eq!(state.source_status[0].0, "a");
}

#[test]
fn sorting_breaks_ties_by_most_recent_start() {
    let mut a = make_pipeline("a", "r", PipelineStatus::Success);
    let mut b = make_pipeline("b", "r", PipelineStatus::Success);
    let c = make_pipeline("c", "r", PipelineStatus::Skipped);
    a.started_at = 1_000;
    b.started_at = 2_000;
    let sorted = sort_pipelines(vec![c, a, b]);
    let ids: Vec<&str> = sorted.iter().map(|p| p.id.as_str()).collect();
    assert_eq!(ids, vec!["b", "a", "c"]);
}

#[test]
fn rate_limits_are_recorded() {
    let mut state = AppState::new();
    state.mark_source_rate_limited_at("gh", 60_000, 0);
    assert_eq!(state.errors.len(), 1);
    assert_eq!(state.errors[0].message, "Rate limited until 00:01:00");
}
