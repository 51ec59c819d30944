use argus::api::traits::LogEntry;
use argus::app::{App, Focus, Key, LogPoll};
use argus::config::{Config, NotificationConfig, SourceConfig, UiConfig};
use argus::models::{Pipeline, PipelineStatus, Stage};
use argus::services::PollUpdate;
use argus::state::SourceStatus;

fn pipeline(id: &str, repo: &str, status: PipelineStatus, started_at: i64, stages: usize) -> Pipeline {
    let mut s = Vec::new();
    for i in 0..stages {
        s.push(Stage::new_pending(format!("{}", 100 + i), format!("job{}", i), i));
    }
    Pipeline {
        id: id.to_string(),
        name: "CI".into(),
        source: "GitHub Actions".into(),
        repository: repo.to_string(),
        branch: "main".into(),
        status,
        build_number: 1,
        started_at,
        finished_at: None,
        duration: None,
        stages: s,
        url: "https://example.com".into(),
        commit_sha: "abc1234".into(),
        commit_message: "test".into(),
        author: "dev".into(),
    }
}

fn github_source() -> SourceConfig {
    SourceConfig {
        name: "gh".to_string(),
        source_type: "github".to_string(),
        enabled: true,
        url: None,
        token_env: Some("TOKEN".to_string()),
        username_env: None,
        owner: Some("acme".to_string()),
        repos: Some(vec!["api".to_string()]),
        group: None,
        projects: None,
        jobs: None,
    }
}

fn app_with_three() -> App {
    let cfg = Config {
        sources: vec![github_source()],
        refresh_interval: 30,
        ui: UiConfig::default(),
        notification: NotificationConfig::default(),
    };
    let mut app = App::new(cfg);
    app.handle_poll_update(PollUpdate::PipelinesUpdated(
        "gh".to_string(),
        vec![
            pipeline("github-a-1", "a", PipelineStatus::Success, 1_000, 2),
            pipeline("github-b-1", "b", PipelineStatus::Success, 2_000, 0),
            pipeline("github-c-1", "c", PipelineStatus::Success, 3_000, 1),
        ],
    ));
    app
}

#[test]
fn list_navigation_wraps_around() {
    let mut app = app_with_three();
    assert_eq!(app.selected_pipeline, 0);
    app.handle_input(Key::Down);
    app.handle_input(Key::Char('j'));
    assert_eq!(app.selected_pipeline, 2);
    app.handle_input(Key::Down);
    assert_eq!(app.selected_pipeline, 0);
    app.handle_input(Key::Up);
    assert_eq!(app.selected_pipeline, 2);
    app.handle_input(Key::Char('k'));
    assert_eq!(app.selected_pipeline, 1);
}

#[test]
fn down_then_up_returns_to_the_same_pipeline() {
    let mut app = app_with_three();
    for start in 0..3 {
        app.selected_pipeline = start;
        app.handle_input(Key::Down);
        app.handle_input(Key::Up);
        assert_eq!(app.selected_pipeline, start);
    }
}

#[test]
fn panels_open_and_close_with_their_keys() {
    let mut app = app_with_three();
    app.handle_input(Key::Enter);
    assert_eq!(app.focus, Focus::Details);
    app.handle_input(Key::Char('l'));
    assert_eq!(app.focus, Focus::Logs);
    app.logs = Some(vec![]);
    app.log_stage_index = Some(0);
    app.handle_input(Key::Esc);
    assert_eq!(app.focus, Focus::Details);
    assert!(app.logs.is_none());
    assert!(app.log_stage_index.is_none());
    app.handle_input(Key::Char('e'));
    assert_eq!(app.focus, Focus::Errors);
    assert!(app.show_errors);
    app.handle_input(Key::Esc);
    assert_eq!(app.focus, Focus::PipelineList);
    assert!(!app.show_errors);
    app.handle_input(Key::Char('q'));
    assert!(app.should_quit);
}

#[test]
fn refresh_key_sets_flag_and_message() {
    let mut app = app_with_three();
    app.handle_input(Key::Char('r'));
    assert!(app.force_refresh);
    assert_eq!(app.status_message.as_ref().map(|m| m.0.clone()), Some("Refreshing…".to_string()));
}

#[test]
fn stage_selection_stays_on_a_stage() {
    let mut app = app_with_three();
    // Most recent first: c (1 stage), b (0 stages), a (2 stages).
    app.selected_pipeline = 2;
    app.handle_input(Key::Enter);
    app.handle_input(Key::Down);
    assert_eq!(app.log_stage_index, Some(1));
    app.handle_input(Key::Down);
    assert_eq!(app.log_stage_index, Some(1));
    app.handle_input(Key::Up);
    app.handle_input(Key::Up);
    assert_eq!(app.log_stage_index, Some(0));
}

#[test]
fn log_scroll_stays_within_the_log() {
    let mut app = app_with_three();
    app.focus = Focus::Logs;
    let mut entries = Vec::new();
    for i in 0..30 {
        entries.push(LogEntry { line: i + 1, text: format!("l{}", i), timestamp: None });
    }
    app.logs = Some(entries);
    app.handle_input(Key::PageDown);
    assert_eq!(app.log_scroll, 20);
    app.handle_input(Key::PageDown);
    assert_eq!(app.log_scroll, 29);
    app.handle_input(Key::Down);
    assert_eq!(app.log_scroll, 29);
    app.handle_input(Key::Home);
    assert_eq!(app.log_scroll, 0);
    app.handle_input(Key::Up);
    assert_eq!(app.log_scroll, 0);
    app.handle_input(Key::End);
    assert_eq!(app.log_scroll, 29);
}

#[test]
fn log_fetch_targets_the_selected_stage() {
    let mut app = app_with_three();
    app.selected_pipeline = 2;
    app.focus = Focus::Logs;
    app.log_stage_index = Some(1);
    assert!(app.next_log_fetch(true).is_none());
    assert!(app.logs.is_none());
    match app.next_log_fetch(false) {
        Some(f) => {
            assert_eq!(f.source, 0);
            assert_eq!(f.pipeline_id, "github-a-1");
            assert_eq!(f.stage_id, "101");
        }
        None => panic!("expected a fetch"),
    }
    assert!(app.logs.is_none());
}

#[test]
fn log_fetch_without_stage_shows_empty_log() {
    let mut app = app_with_three();
    app.selected_pipeline = 1;
    app.focus = Focus::Logs;
    assert!(app.next_log_fetch(false).is_none());
    assert_eq!(app.logs.as_ref().map(|l| l.len()), Some(0));
}

#[test]
fn failed_log_fetch_is_recorded() {
    let mut app = app_with_three();
    app.receive_logs(Some(Err("boom".to_string())));
    assert_eq!(app.logs.as_ref().map(|l| l.len()), Some(0));
    assert_eq!(app.state.errors.len(), 1);
    assert_eq!(app.state.errors[0].source, "log-fetch");
    assert_eq!(app.state.errors[0].message, "boom");
    app.logs = None;
    app.receive_logs(Some(Ok(vec![LogEntry { line: 1, text: "x".into(), timestamp: None }])));
    assert_eq!(app.logs.as_ref().map(|l| l.len()), Some(1));
    app.receive_logs(None);
    assert_eq!(app.logs.as_ref().map(|l| l.len()), Some(0));
}

#[test]
fn poll_updates_reach_the_store() {
    let mut app = app_with_three();
    app.selected_pipeline = 2;
    app.handle_poll_update(PollUpdate::PipelinesUpdated(
        "gh".to_string(),
        vec![pipeline("github-a-2", "a", PipelineStatus::Running, 4_000, 0)],
    ));
    assert_eq!(app.state.pipeline_count(), 1);
    assert_eq!(app.selected_pipeline, 0);
    app.handle_poll_update(PollUpdate::Error("gh".to_string(), "down".to_string()));
    let statuses = app.source_statuses();
    assert!(matches!(statuses[0].1, SourceStatus::Error(m) if m == "down"));
    app.handle_poll_update(PollUpdate::RateLimited("gh".to_string(), 60_000));
    let statuses = app.source_statuses();
    assert!(matches!(statuses[0].1, SourceStatus::RateLimited(_)));
    assert_eq!(app.state.errors.len(), 2);
    assert!(app.state.errors[1].message.starts_with("Rate limited until "));
}

#[test]
fn loop_turn_applies_messages_in_order_then_fetches() {
    let mut app = app_with_three();
    app.selected_pipeline = 2;
    app.focus = Focus::Logs;
    app.log_stage_index = Some(0);
    let fetch = app.before_draw(
        vec![
            PollUpdate::Error("gh".to_string(), "first".to_string()),
            PollUpdate::Error("gh".to_string(), "second".to_string()),
        ],
        LogPoll::Idle,
    );
    assert_eq!(app.state.errors.len(), 2);
    assert_eq!(app.state.errors[1].message, "second");
    assert_eq!(fetch.map(|f| f.stage_id), Some("100".to_string()));
    assert!(app.before_draw(vec![], LogPoll::Pending).is_none());
    assert!(app.before_draw(vec![], LogPoll::Done(Err("boom".to_string()))).is_none());
    assert_eq!(app.logs.as_ref().map(|l| l.len()), Some(0));
    assert_eq!(app.state.errors[2].source, "log-fetch");
}

#[test]
fn loop_turn_ends_on_quit_key() {
    let mut app = app_with_three();
    assert!(!app.after_draw(None));
    assert!(!app.after_draw(Some(Key::Down)));
    assert_eq!(app.selected_pipeline, 1);
    assert!(app.after_draw(Some(Key::Char('q'))));
}
