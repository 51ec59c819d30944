use argus::config::{Config, NotificationConfig, SourceConfig, UiConfig};
use argus::utils::error::{ArgusError, ConfigError};

fn source(name: &str, kind: &str) -> SourceConfig {
    SourceConfig {
        name: name.to_string(),
        source_type: kind.to_string(),
        enabled: true,
        url: None,
        token_env: Some("TOKEN".to_string()),
        username_env: None,
        owner: None,
        repos: None,
        group: None,
        projects: None,
        jobs: None,
    }
}

fn config(sources: Vec<SourceConfig>) -> Config {
    Config {
        sources,
        refresh_interval: 30,
        ui: UiConfig::default(),
        notification: NotificationConfig::default(),
    }
}

#[test]
fn default_config_is_empty_and_valid() {
    let c = Config::default();
    assert_eq!(c.refresh_interval, 30);
    assert_eq!(c.ui.theme, "default");
    assert_eq!(c.ui.max_log_lines, 1000);
    assert!(c.sources.is_empty());
    assert!(c.validate().is_ok());
}

#[test]
fn zero_refresh_interval_is_rejected() {
    let mut c = config(vec![]);
    c.refresh_interval = 0;
    match c.validate() {
        Err(ArgusError::Config(ConfigError::InvalidConfig(m))) => {
            assert_eq!(m, "refresh_interval must be greater than 0")
        }
        _ => panic!("expected an invalid configuration"),
    }
}

#[test]
fn unknown_source_type_is_rejected() {
    match source("ci", "travis").validate() {
        Err(ArgusError::Config(ConfigError::InvalidConfig(m))) => assert_eq!(
            m,
            "Invalid source type 'travis' in source 'ci'. Must be 'github', 'gitlab', or 'jenkins'."
        ),
        _ => panic!("expected an invalid source type"),
    }
}

#[test]
fn github_source_needs_owner_and_repos() {
    let mut s = source("gh", "github");
    match s.validate() {
        Err(ArgusError::Config(ConfigError::MissingField(m))) => {
            assert_eq!(m, "GitHub source 'gh' requires 'owner'")
        }
        _ => panic!("expected a missing owner"),
    }
    s.owner = Some("acme".to_string());
    s.repos = Some(vec![]);
    match s.validate() {
        Err(ArgusError::Config(ConfigError::MissingField(m))) => {
            assert_eq!(m, "GitHub source 'gh' requires at least one repo in 'repos'")
        }
        _ => panic!("expected missing repos"),
    }
    s.repos = Some(vec!["api".to_string()]);
    assert!(s.validate().is_ok());
}

#[test]
fn jenkins_source_needs_url_and_jobs() {
    let mut s = source("jk", "jenkins");
    match s.validate() {
        Err(ArgusError::Config(ConfigError::MissingField(m))) => {
            assert_eq!(m, "Jenkins source 'jk' requires 'url'")
        }
        _ => panic!("expected a missing url"),
    }
    s.url = Some("https://ci.example.com".to_string());
    match s.validate() {
        Err(ArgusError::Config(ConfigError::MissingField(m))) => {
            assert_eq!(m, "Jenkins source 'jk' requires at least one job in 'jobs'")
        }
        _ => panic!("expected missing jobs"),
    }
}

#[test]
fn disabled_sources_are_not_checked_or_active() {
    let mut bad = source("off", "travis");
    bad.enabled = false;
    let mut gl = source("lab", "gitlab");
    gl.projects = Some(vec!["org/proj".to_string()]);
    let c = config(vec![bad, gl]);
    assert!(c.validate().is_ok());
    let active = c.active_sources();
    assert_eq!(active.len(), 1);
    assert_eq!(active[0].name, "lab");
}

#[test]
fn tokens_come_from_the_named_variable() {
    let s = source("gh", "github");
    assert_eq!(s.resolve_token(Some("secret".to_string())).unwrap(), "secret");
    match s.resolve_token(None) {
        Err(ArgusError::Config(ConfigError::MissingEnvVar(v))) => assert_eq!(v, "TOKEN"),
        _ => panic!("expected a missing variable"),
    }
    let mut t = source("gh", "github");
    t.token_env = None;
    match t.resolve_token(Some("x".to_string())) {
        Err(ArgusError::Config(ConfigError::MissingField(m))) => {
            assert_eq!(m, "source 'gh' is missing 'token_env'")
        }
        _ => panic!("expected a missing field"),
    }
}

#[test]
fn log_source_is_the_first_enabled_match() {
    let mut off = source("old", "github");
    off.enabled = false;
    let gh = source("new", "github");
    let jk = source("ci", "jenkins");
    let c = config(vec![off, gh, jk]);
    assert_eq!(c.log_source("github-api-1", "GitHub Actions"), Some(1));
    assert_eq!(c.log_source("x-1", "Jenkins"), Some(2));
    assert_eq!(c.log_source("gitlab-a-1", "GitLab CI"), None);
}
