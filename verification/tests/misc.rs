use argus::instant::now_millis;
use argus::models::{PipelineStatus, Stage, StageStatus};
use argus::services::poller::{poll_delay_secs, poll_update, RATE_LIMIT_BACKOFF_MS};
use argus::services::PollUpdate;
use argus::text::{contains, parse_unsigned, replace_char, split_lines, trim_start_text};
use argus::ui::theme::{Theme, ThemeColor};
use argus::utils::error::{with_context, ApiError, ArgusError, ConfigError};

#[test]
fn rate_limit_errors_become_rate_limited_updates() {
    match poll_update("gh", Err(ArgusError::Api(ApiError::RateLimitExceeded))) {
        PollUpdate::RateLimited(n, d) => {
            assert_eq!(n, "gh");
            assert_eq!(d, RATE_LIMIT_BACKOFF_MS);
            assert_eq!(d, 60_000);
        }
        _ => panic!("expected a rate-limit update"),
    }
    match poll_update("gh", Err(ArgusError::Api(ApiError::Network("down".into())))) {
        PollUpdate::Error(n, m) => {
            assert_eq!(n, "gh");
            assert_eq!(m, "API error: Network error: down");
        }
        _ => panic!("expected an error update"),
    }
    assert!(matches!(poll_update("gh", Ok(vec![])), PollUpdate::PipelinesUpdated(_, _)));
}

#[test]
fn poll_delays_jitter_around_the_interval() {
    assert_eq!(poll_delay_secs(30, 0), 25);
    assert_eq!(poll_delay_secs(30, 10), 35);
    assert_eq!(poll_delay_secs(30, 16), 30);
    assert_eq!(poll_delay_secs(3, 0), 5);
    assert_eq!(poll_delay_secs(0, 10), 5);
}

#[test]
fn error_messages_match_their_kind() {
    assert_eq!(
        ArgusError::Config(ConfigError::MissingEnvVar("TOKEN".into())).message(),
        "Configuration error: Missing environment variable: TOKEN"
    );
    assert_eq!(
        ArgusError::Api(ApiError::ApiError { status: 502, message: "bad".into() }).message(),
        "API error: API returned error: 502 - bad"
    );
    assert!(ArgusError::Api(ApiError::RateLimitExceeded).is_rate_limit());
    assert!(!ArgusError::Io("x".into()).is_rate_limit());
    let e = with_context(ArgusError::Io("disk".into()), "saving");
    assert_eq!(e.message(), "Unknown error: saving: IO error: disk");
}

#[test]
fn themes_by_name() {
    assert_eq!(Theme::from_name("dark").name, "dark");
    assert_eq!(Theme::from_name("light").background, ThemeColor::White);
    assert_eq!(Theme::from_name("monokai").success, ThemeColor::Rgb(166, 226, 46));
    assert_eq!(Theme::from_name("nope").name, "default");
    let t = Theme::default();
    assert_eq!(t.status_color(PipelineStatus::Cancelled), ThemeColor::Magenta);
    assert_eq!(t.stage_status_color(StageStatus::Skipped), ThemeColor::DarkGray);
}

#[test]
fn status_words_and_symbols() {
    assert_eq!(PipelineStatus::Running.as_str(), "Running");
    assert_eq!(PipelineStatus::Cancelled.emoji(), "⊘");
    assert!(PipelineStatus::Skipped.is_terminal());
    assert!(!PipelineStatus::Pending.is_terminal());
    assert!(StageStatus::Running.is_active());
    assert!(StageStatus::Failed.is_failure());
    assert!(StageStatus::Success.is_success());
    assert!(!StageStatus::Pending.is_terminal());
}

#[test]
fn text_helpers() {
    assert_eq!(parse_unsigned("123", 1000), Some(123));
    assert_eq!(parse_unsigned("+7", 1000), Some(7));
    assert_eq!(parse_unsigned("1001", 1000), None);
    assert_eq!(parse_unsigned("", 1000), None);
    assert_eq!(parse_unsigned("-1", 1000), None);
    assert!(contains("hello world", "o w"));
    assert!(!contains("hello", "world"));
    assert_eq!(replace_char("a/b", '/', "%2F"), "a%2Fb");
    assert_eq!(split_lines("a\n\nb\r\n"), vec!["a".to_string(), "".to_string(), "b".to_string()]);
    assert_eq!(trim_start_text("\u{3000} x y \t"), "x y \t");
}

#[test]
fn stage_durations() {
    let running = Stage::new_running("1".into(), "build".into(), 0, now_millis() - 5_000);
    assert_eq!(running.status, StageStatus::Running);
    assert!(running.calculate_duration().unwrap() >= 5_000);
    let mut done = Stage::new_pending("2".into(), "test".into(), 1);
    assert_eq!(done.calculate_duration(), None);
    done.started_at = Some(1_000);
    done.finished_at = Some(4_500);
    assert_eq!(done.calculate_duration(), Some(3_500));
    assert_eq!(done.duration_at(10_000), Some(3_500));
}

#[test]
fn relative_to_the_clock() {
    let t = argus::instant::now_millis() - 120_000;
    assert_eq!(argus::utils::time::format_relative(t), "2 minutes ago");
}
