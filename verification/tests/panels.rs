use argus::api::traits::LogEntry;
use argus::app::{App, Focus};
use argus::config::Config;
use argus::models::{Pipeline, PipelineStatus};
use argus::ui::dashboard::{inner_rows, list_scroll_offset, log_line_style, platform_badge};
use argus::ui::panels::{
    footer_line, header_title, list_counter, log_counter, log_lines, log_placeholder,
    pipeline_details, pipeline_rows, Span,
};
use argus::ui::theme::{StyleSpec, Theme, ThemeColor};

fn texts(spans: &[Span]) -> Vec<String> {
    spans.iter().map(|s| s.text.clone()).collect()
}

fn pipeline(name: &str, duration: Option<i64>) -> Pipeline {
    Pipeline {
        id: "gitlab-org-proj-1".to_string(),
        name: name.to_string(),
        source: "GitLab CI".into(),
        repository: "org/proj".to_string(),
        branch: "main".into(),
        status: PipelineStatus::Failed,
        build_number: 7,
        started_at: 1_700_000_000_000,
        finished_at: None,
        duration,
        stages: vec![],
        url: "https://example.com".into(),
        commit_sha: "deadbeef1234".into(),
        commit_message: "Fix it\nwith details".into(),
        author: "dev".into(),
    }
}

#[test]
fn footer_shows_help_for_the_focused_panel() {
    let mut app = App::new(Config::default());
    let theme = Theme::default();
    app.focus = Focus::Logs;
    let line = footer_line(&app, &theme);
    assert_eq!(
        texts(&line),
        vec![" ", "↑↓ PgUp PgDn", " Scroll | ", "Home End", " Jump | ", "Esc", " Close"]
    );
    assert_eq!(line[1].style, StyleSpec { fg: Some(ThemeColor::Cyan), bg: None, bold: true, dim: false });
    app.status_message = Some(("Refreshing…".to_string(), std::time::Instant::now()));
    assert_eq!(texts(&footer_line(&app, &theme)), vec![" ", "Refreshing…"]);
}

#[test]
fn header_title_counts_pipelines() {
    let app = App::new(Config::default());
    assert_eq!(header_title(&app), " 0 pipelines | 30s refresh ");
}

#[test]
fn counters_show_position_and_total() {
    assert_eq!(list_counter(30, 10, 4), " 5/30 ");
    assert_eq!(list_counter(5, 10, 4), "");
    assert_eq!(log_counter(0, 3), " 1/3 ");
}

#[test]
fn list_rows_shorten_long_names() {
    let theme = Theme::default();
    let long = pipeline("a_very_long_pipeline_name", Some(90_000));
    let short = pipeline("build", None);
    let sorted = vec![&long, &short];
    let rows = pipeline_rows(&theme, &sorted, 1, 10);
    assert_eq!(rows.len(), 2);
    assert_eq!(texts(&rows[0]), vec!["[GL] ", "✗ ", "a_very_long_pipelin…", " (main)", " 1m"]);
    assert_eq!(texts(&rows[1]), vec!["[GL] ", "✗ ", "build", " (main)", ""]);
    assert_eq!(rows[1][2].style.bg, Some(ThemeColor::Blue));
    assert!(rows[1][3].style.dim);
}

#[test]
fn list_rows_scroll_to_the_selection() {
    let theme = Theme::default();
    let ps: Vec<Pipeline> = (0..5).map(|i| pipeline(&format!("p{}", i), None)).collect();
    let sorted: Vec<&Pipeline> = ps.iter().collect();
    let rows = pipeline_rows(&theme, &sorted, 4, 2);
    assert_eq!(rows.len(), 2);
    assert_eq!(rows[0][2].text, "p3");
    assert_eq!(rows[1][2].text, "p4");
    assert_eq!(list_scroll_offset(4, 2), 3);
    assert_eq!(inner_rows(1), 0);
    assert_eq!(inner_rows(12), 10);
}

#[test]
fn details_list_the_pipeline_fields() {
    let theme = Theme::default();
    let p = pipeline("deploy", Some(3_665_000));
    let lines = pipeline_details(&theme, &p, 0, true, 1_700_000_090_000);
    assert_eq!(texts(&lines[0]), vec!["Platform:  ", "[GL] GitLab CI"]);
    assert_eq!(texts(&lines[3]), vec!["Status:    ", "✗ Failed"]);
    assert_eq!(texts(&lines[5]), vec!["Build:     ", "#7"]);
    assert_eq!(texts(&lines[6]), vec!["Commit:    ", "deadbee – Fix it"]);
    assert_eq!(texts(&lines[8]), vec!["Started:   ", "1 minute ago"]);
    assert_eq!(texts(&lines[9]), vec!["Duration:  ", "1h 1m"]);
    assert_eq!(lines.len(), 13);
}

#[test]
fn log_lines_number_and_highlight() {
    let theme = Theme::default();
    let entries = vec![
        LogEntry { line: 7, text: "Build FAILED".to_string(), timestamp: None },
        LogEntry { line: 123456, text: "all good".to_string(), timestamp: None },
    ];
    let lines = log_lines(&theme, &entries, 0, 10);
    assert_eq!(texts(&lines[0]), vec!["    7 ", "Build FAILED"]);
    assert_eq!(lines[0][1].style.fg, Some(ThemeColor::Red));
    assert_eq!(texts(&lines[1]), vec!["123456 ", "all good"]);
    assert_eq!(lines[1][1].style, StyleSpec { fg: Some(ThemeColor::Reset), bg: Some(ThemeColor::Reset), bold: false, dim: false });
    assert_eq!(log_lines(&theme, &entries, 1, 10).len(), 1);
    assert_eq!(log_placeholder(&None), Some("  Fetching logs…"));
    assert_eq!(log_placeholder(&Some(vec![])), Some("  No log output available for this stage."));
    assert_eq!(log_placeholder(&Some(entries)), None);
}

#[test]
fn log_styles_follow_keywords() {
    let theme = Theme::default();
    assert_eq!(log_line_style(&theme, "warning: x").fg, Some(ThemeColor::Yellow));
    assert_eq!(log_line_style(&theme, "Tests PASSED").fg, Some(ThemeColor::Green));
    assert_eq!(platform_badge("Jenkins").0, "JK");
    assert_eq!(platform_badge("GitHub Actions").1, ThemeColor::Blue);
    assert_eq!(platform_badge("Travis").0, "CI");
}

#[test]
fn header_badges_follow_the_status_table() {
    let mut app = App::new(Config::default());
    app.state.register_source("my-github");
    app.state.mark_source_error("jenkins-main", "down");
    let badges = argus::ui::panels::header_badges(&app);
    assert_eq!(texts(&badges), vec!["Sources: ", "[my-github ⟳ ] ", "[jenkins-main ✗ ] "]);
    assert_eq!(badges[1].style.fg, Some(ThemeColor::Blue));
    assert_eq!(badges[2].style.fg, Some(ThemeColor::Red));
}

#[test]
fn error_panel_lists_newest_first() {
    let mut app = App::new(Config::default());
    app.state.mark_source_error_at("a", "first", 1_700_000_000_000);
    app.state.mark_source_error_at("b", "second", 1_700_000_060_000);
    let theme = Theme::default();
    let rows = argus::ui::panels::error_lines(&theme, &app.state.errors, 5, 1_700_000_120_000);
    assert_eq!(rows.len(), 2);
    assert_eq!(texts(&rows[0]), vec![" 1 minute ago ", "[b] ", "second"]);
    assert_eq!(texts(&rows[1]), vec![" 2 minutes ago ", "[a] ", "first"]);
    assert_eq!(argus::ui::panels::error_lines(&theme, &app.state.errors, 1, 1_700_000_120_000).len(), 1);
}

#[test]
fn details_view_needs_a_selected_pipeline() {
    let app = App::new(Config::default());
    let theme = Theme::default();
    assert!(argus::ui::panels::details_view(&app, &theme, 1_700_000_000_000).is_none());
}
