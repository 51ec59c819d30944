//! Configuration model: sources to watch, refresh interval and UI options,
//! with the defaults and validation rules.

use vstd::prelude::*;
use vstd::string::*;
use crate::text::{contains, has_infix, has_prefix, push_str, same_text, starts_with, to_lowercase, unicode_lowercase};
use crate::utils::error::{ArgusError, ArgusErrorView, ConfigError, ConfigErrorView};

verus! {

/// The whole configuration.
#[derive(Debug, Clone)]
pub struct Config {
    pub sources: Vec<SourceConfig>,
    pub refresh_interval: u64,
    pub ui: UiConfig,
    pub notification: NotificationConfig,
}

/// One CI/CD source.
#[derive(Debug, Clone)]
pub struct SourceConfig {
    pub name: String,
    /// "github", "gitlab" or "jenkins"
    pub source_type: String,
    /// Allow a source to be disabled without removing it from the config.
    pub enabled: bool,
    pub url: Option<String>,
    pub token_env: Option<String>,
    /// Jenkins-specific: env var holding the username
    pub username_env: Option<String>,
    // GitHub
    pub owner: Option<String>,
    pub repos: Option<Vec<String>>,
    // GitLab
    pub group: Option<String>,
    pub projects: Option<Vec<String>>,
    // Jenkins
    pub jobs: Option<Vec<String>>,
}

/// UI options.
#[derive(Debug, Clone)]
pub struct UiConfig {
    pub theme: String,
    pub show_timestamps: bool,
    pub max_log_lines: usize,
}

/// Notification options.
#[derive(Debug, Clone)]
pub struct NotificationConfig {
    pub desktop: bool,
    pub sound: bool,
    pub channels: Vec<String>,
}

/// Default refresh interval, in seconds.
pub fn default_refresh_interval() -> (r: u64)
    ensures
        r == 30,
{
    30
}

/// Default theme name.
pub fn default_theme() -> (r: String)
    ensures
        r@ == "default"@,
{
    "default".to_owned()
}

/// Default for flags that are on unless switched off.
pub fn default_true() -> (r: bool)
    ensures
        r,
{
    true
}

/// Default number of log lines kept.
pub fn default_max_log_lines() -> (r: usize)
    ensures
        r == 1000,
{
    1000
}

impl Default for UiConfig {
    fn default() -> (r: Self)
        ensures
            r.theme@ == "default"@,
            r.show_timestamps,
            r.max_log_lines == 1000,
    {
        UiConfig { theme: default_theme(), show_timestamps: true, max_log_lines: default_max_log_lines() }
    }
}

impl Default for NotificationConfig {
    fn default() -> (r: Self)
        ensures
            !r.desktop,
            !r.sound,
            r.channels@.len() == 0,
    {
        NotificationConfig { desktop: false, sound: false, channels: Vec::new() }
    }
}

// ---------------------------------------------------------------------------
// Validation rules
// ---------------------------------------------------------------------------

/// A list option that is missing or holds no entry.
pub open spec fn missing_or_empty(v: Option<Vec<String>>) -> bool {
    match v {
        Some(l) => l@.len() == 0,
        None => true,
    }
}

/// The error with which a source is rejected, if any.
pub open spec fn source_problem(s: SourceConfig) -> Option<ArgusErrorView> {
    let t = s.source_type@;
    let n = s.name@;
    if !(t == "github"@ || t == "gitlab"@ || t == "jenkins"@) {
        Some(
            ArgusErrorView::Config(
                ConfigErrorView::InvalidConfig(
                    "Invalid source type '"@ + t + "' in source '"@ + n
                        + "'. Must be 'github', 'gitlab', or 'jenkins'."@,
                ),
            ),
        )
    } else if t == "github"@ && s.owner is None {
        Some(
            ArgusErrorView::Config(
                ConfigErrorView::MissingField("GitHub source '"@ + n + "' requires 'owner'"@),
            ),
        )
    } else if t == "github"@ && missing_or_empty(s.repos) {
        Some(
            ArgusErrorView::Config(
                ConfigErrorView::MissingField(
                    "GitHub source '"@ + n + "' requires at least one repo in 'repos'"@,
                ),
            ),
        )
    } else if t == "gitlab"@ && missing_or_empty(s.projects) {
        Some(
            ArgusErrorView::Config(
                ConfigErrorView::MissingField(
                    "GitLab source '"@ + n + "' requires at least one entry in 'projects'"@,
                ),
            ),
        )
    } else if t == "jenkins"@ && s.url is None {
        Some(
            ArgusErrorView::Config(
                ConfigErrorView::MissingField("Jenkins source '"@ + n + "' requires 'url'"@),
            ),
        )
    } else if t == "jenkins"@ && missing_or_empty(s.jobs) {
        Some(
            ArgusErrorView::Config(
                ConfigErrorView::MissingField(
                    "Jenkins source '"@ + n + "' requires at least one job in 'jobs'"@,
                ),
            ),
        )
    } else {
        None
    }
}

/// The first problem among the enabled sources of a list.
pub open spec fn first_source_problem(s: Seq<SourceConfig>) -> Option<ArgusErrorView>
    decreases s.len(),
{
    if s.len() == 0 {
        None
    } else if s[0].enabled && source_problem(s[0]) is Some {
        source_problem(s[0])
    } else {
        first_source_problem(s.drop_first())
    }
}

/// The error with which a configuration is rejected, if any.
pub open spec fn config_problem(c: Config) -> Option<ArgusErrorView> {
    if c.refresh_interval == 0 {
        Some(
            ArgusErrorView::Config(
                ConfigErrorView::InvalidConfig("refresh_interval must be greater than 0"@),
            ),
        )
    } else {
        first_source_problem(c.sources@)
    }
}

/// A list has no problem among its enabled sources exactly when each
/// enabled source passes on its own.
proof fn lemma_first_source_problem(s: Seq<SourceConfig>)
    ensures
        first_source_problem(s) is None <==> forall|i: int|
            0 <= i < s.len() && (#[trigger] s[i]).enabled ==> source_problem(s[i]) is None,
    decreases s.len(),
{
    if s.len() > 0 {
        let d = s.drop_first();
        lemma_first_source_problem(d);
        assert forall|i: int| 0 < i < s.len() implies s[i] == d[i - 1] by {}
        if first_source_problem(s) is None {
            assert forall|i: int| 0 <= i < s.len() && (#[trigger] s[i]).enabled implies source_problem(s[i]) is None by {
                if i > 0 {
                    assert(d[i - 1] == s[i]);
                }
            }
        }
        if forall|i: int| 0 <= i < s.len() && (#[trigger] s[i]).enabled ==> source_problem(s[i]) is None {
            assert forall|i: int| 0 <= i < d.len() && (#[trigger] d[i]).enabled implies source_problem(d[i]) is None by {
                assert(s[i + 1] == d[i]);
            }
        }
    }
}

/// A configuration passes validation exactly when its refresh interval is
/// positive and every enabled source passes on its own; disabled sources
/// are not checked.
pub proof fn lemma_config_valid(c: Config)
    ensures
        config_problem(c) is None <==> (c.refresh_interval > 0 && forall|i: int|
            0 <= i < c.sources@.len() && (#[trigger] c.sources@[i]).enabled ==> source_problem(
                c.sources@[i],
            ) is None),
{
    lemma_first_source_problem(c.sources@);
}

/// The enabled sources of a list, in order.
pub open spec fn enabled_sources(s: Seq<SourceConfig>) -> Seq<SourceConfig>
    decreases s.len(),
{
    if s.len() == 0 {
        Seq::empty()
    } else if s[0].enabled {
        seq![s[0]] + enabled_sources(s.drop_first())
    } else {
        enabled_sources(s.drop_first())
    }
}

/// A copy of a list of strings.
pub(crate) fn clone_strings(v: &Vec<String>) -> (r: Vec<String>)
    ensures
        r@ == v@,
{
    let mut r: Vec<String> = Vec::new();
    let n = v.len();
    let mut i: usize = 0;
    while i < n
        invariant
            n == v@.len(),
            i <= n,
            r@ == v@.take(i as int),
        decreases n - i,
    {
        r.push(v[i].clone());
        assert(r@ =~= v@.take(i + 1));
        i = i + 1;
    }
    assert(v@.take(n as int) =~= v@);
    r
}

fn is_missing_or_empty(v: &Option<Vec<String>>) -> (r: bool)
    ensures
        r == missing_or_empty(*v),
{
    match v {
        Some(l) => l.len() == 0,
        None => true,
    }
}

fn quoted_message(a: &str, name: &str, b: &str) -> (r: String)
    ensures
        r@ == a@ + name@ + b@,
{
    let mut r = a.to_owned();
    push_str(&mut r, name);
    push_str(&mut r, b);
    r
}

impl SourceConfig {
    /// The access token, given what the environment holds under the
    /// variable that `token_env` names (`None` when it is not set).
    pub fn resolve_token(&self, env_value: Option<String>) -> (r: core::result::Result<String, ArgusError>)
        ensures
            match self.token_env {
                None => r matches Err(e) && e@ == ArgusErrorView::Config(
                    ConfigErrorView::MissingField(
                        "source '"@ + self.name@ + "' is missing 'token_env'"@,
                    ),
                ),
                Some(var) => match env_value {
                    Some(v) => r == Ok::<String, ArgusError>(v),
                    None => r matches Err(e) && e@ == ArgusErrorView::Config(
                        ConfigErrorView::MissingEnvVar(var@),
                    ),
                },
            },
    {
        match &self.token_env {
            None => Err(
                ArgusError::Config(
                    ConfigError::MissingField(
                        quoted_message("source '", self.name.as_str(), "' is missing 'token_env'"),
                    ),
                ),
            ),
            Some(var) => match env_value {
                Some(v) => Ok(v),
                None => Err(ArgusError::Config(ConfigError::MissingEnvVar(var.clone()))),
            },
        }
    }

    /// The user name, given what the environment holds under the variable
    /// that `username_env` names (`None` when it is not set); no user name
    /// when `username_env` is absent.
    pub fn resolve_username(&self, env_value: Option<String>) -> (r: core::result::Result<Option<String>, ArgusError>)
        ensures
            match self.username_env {
                None => r == Ok::<Option<String>, ArgusError>(None),
                Some(var) => match env_value {
                    Some(v) => r == Ok::<Option<String>, ArgusError>(Some(v)),
                    None => r matches Err(e) && e@ == ArgusErrorView::Config(
                        ConfigErrorView::MissingEnvVar(var@),
                    ),
                },
            },
    {
        match &self.username_env {
            None => Ok(None),
            Some(var) => match env_value {
                Some(v) => Ok(Some(v)),
                None => Err(ArgusError::Config(ConfigError::MissingEnvVar(var.clone()))),
            },
        }
    }

    /// Checks that the source names a known platform and has the fields that
    /// platform needs.
    pub fn validate(&self) -> (r: core::result::Result<(), ArgusError>)
        ensures
            match r {
                Ok(()) => source_problem(*self) is None,
                Err(e) => source_problem(*self) == Some(e@),
            },
    {
        let t = self.source_type.as_str();
        let n = self.name.as_str();
        let is_github = same_text(t, "github");
        let is_gitlab = same_text(t, "gitlab");
        let is_jenkins = same_text(t, "jenkins");
        if !(is_github || is_gitlab || is_jenkins) {
            let mut m = "Invalid source type '".to_owned();
            push_str(&mut m, t);
            push_str(&mut m, "' in source '");
            push_str(&mut m, n);
            push_str(&mut m, "'. Must be 'github', 'gitlab', or 'jenkins'.");
            let e = ArgusError::Config(ConfigError::InvalidConfig(m));
            assert(source_problem(*self) =~~= Some(e@));
            return Err(e);
        }
        if is_github && self.owner.is_none() {
            let m = quoted_message("GitHub source '", n, "' requires 'owner'");
            return Err(ArgusError::Config(ConfigError::MissingField(m)));
        }
        if is_github && is_missing_or_empty(&self.repos) {
            let m = quoted_message("GitHub source '", n, "' requires at least one repo in 'repos'");
            return Err(ArgusError::Config(ConfigError::MissingField(m)));
        }
        if is_gitlab && is_missing_or_empty(&self.projects) {
            let m = quoted_message(
                "GitLab source '",
                n,
                "' requires at least one entry in 'projects'",
            );
            return Err(ArgusError::Config(ConfigError::MissingField(m)));
        }
        if is_jenkins && self.url.is_none() {
            let m = quoted_message("Jenkins source '", n, "' requires 'url'");
            return Err(ArgusError::Config(ConfigError::MissingField(m)));
        }
        if is_jenkins && is_missing_or_empty(&self.jobs) {
            let m = quoted_message("Jenkins source '", n, "' requires at least one job in 'jobs'");
            return Err(ArgusError::Config(ConfigError::MissingField(m)));
        }
        Ok(())
    }
}

/// Whether a source serves the logs of a pipeline: the pipeline's id
/// begins with the source's type and a hyphen, or the lower-cased name of
/// the pipeline's source contains the type.
pub open spec fn serves_logs_of(sc: SourceConfig, pipeline_id: Seq<char>, source: Seq<char>) -> bool {
    has_prefix(pipeline_id, sc.source_type@ + "-"@) || has_infix(unicode_lowercase(source), sc.source_type@)
}

/// The index of the first enabled source that serves the logs of a
/// pipeline.
pub open spec fn first_log_source(s: Seq<SourceConfig>, pipeline_id: Seq<char>, source: Seq<char>) -> Option<int>
    decreases s.len(),
{
    if s.len() == 0 {
        None
    } else {
        match first_log_source(s.drop_last(), pipeline_id, source) {
            Some(i) => Some(i),
            None => if s.last().enabled && serves_logs_of(s.last(), pipeline_id, source) {
                Some(s.len() - 1)
            } else {
                None
            },
        }
    }
}

/// The first serving source is one of the sources.
pub proof fn lemma_first_log_source_bound(s: Seq<SourceConfig>, id: Seq<char>, src: Seq<char>)
    ensures
        first_log_source(s, id, src) matches Some(k) ==> 0 <= k < s.len(),
    decreases s.len(),
{
    if s.len() > 0 {
        lemma_first_log_source_bound(s.drop_last(), id, src);
    }
}

/// Once found in a prefix, the first serving source stays the first in any
/// longer prefix.
proof fn lemma_first_log_source_stays(s: Seq<SourceConfig>, id: Seq<char>, src: Seq<char>, i: int, j: int)
    requires
        0 <= i <= j <= s.len(),
        first_log_source(s.take(i), id, src) is Some,
    ensures
        first_log_source(s.take(j), id, src) == first_log_source(s.take(i), id, src),
    decreases j - i,
{
    if i < j {
        lemma_first_log_source_stays(s, id, src, i, j - 1);
        assert(s.take(j).drop_last() =~= s.take(j - 1));
    }
}

/// Whether the dashboard has a client for a source type.
pub open spec fn known_source_type(t: Seq<char>) -> bool {
    t == "github"@ || t == "gitlab"@ || t == "jenkins"@
}

/// Whether the dashboard has a client for a source type.
pub fn is_known_source_type(t: &str) -> (r: bool)
    ensures
        r == known_source_type(t@),
{
    same_text(t, "github") || same_text(t, "gitlab") || same_text(t, "jenkins")
}

impl Config {
    /// Checks the refresh interval and every enabled source; the first
    /// problem found is returned.
    pub fn validate(&self) -> (r: core::result::Result<(), ArgusError>)
        ensures
            match r {
                Ok(()) => config_problem(*self) is None,
                Err(e) => config_problem(*self) == Some(e@),
            },
    {
        if self.refresh_interval == 0 {
            return Err(
                ArgusError::Config(
                    ConfigError::InvalidConfig("refresh_interval must be greater than 0".to_owned()),
                ),
            );
        }
        let n = self.sources.len();
        let mut i: usize = 0;
        assert(self.sources@.skip(0) =~= self.sources@);
        while i < n
            invariant
                n == self.sources@.len(),
                i <= n,
                self.refresh_interval != 0,
                first_source_problem(self.sources@) == first_source_problem(
                    self.sources@.skip(i as int),
                ),
            decreases n - i,
        {
            let s = &self.sources[i];
            assert(self.sources@.skip(i as int).drop_first() =~= self.sources@.skip(i + 1));
            assert(self.sources@.skip(i as int)[0] == self.sources@[i as int]);
            if s.enabled {
                match s.validate() {
                    Ok(()) => {},
                    Err(e) => {
                        assert(self.sources@.skip(i as int).len() > 0);
                        assert(first_source_problem(self.sources@.skip(i as int))
                            == source_problem(self.sources@[i as int]));
                        return Err(e);
                    },
                }
            }
            i = i + 1;
        }
        Ok(())
    }

    /// The built-in configuration: no sources, defaults everywhere.
    pub fn default() -> (r: Self)
        ensures
            r.sources@.len() == 0,
            r.refresh_interval == 30,
            r.ui.theme@ == "default"@,
            r.ui.show_timestamps,
            r.ui.max_log_lines == 1000,
            !r.notification.desktop,
            !r.notification.sound,
            r.notification.channels@.len() == 0,
    {
        Config {
            sources: Vec::new(),
            refresh_interval: default_refresh_interval(),
            ui: UiConfig::default(),
            notification: NotificationConfig::default(),
        }
    }

    /// Return only sources that are enabled, in order.
    /// The index in `sources` of the first enabled source that serves the
    /// logs of the pipeline with id `pipeline_id` from source `source`.
    pub fn log_source(&self, pipeline_id: &str, source: &str) -> (r: Option<usize>)
        ensures
            match r {
                Some(i) => first_log_source(self.sources@, pipeline_id@, source@) == Some(i as int),
                None => first_log_source(self.sources@, pipeline_id@, source@) is None,
            },
    {
        let lc = to_lowercase(source);
        let n = self.sources.len();
        let ghost s = self.sources@;
        let mut i: usize = 0;
        assert(s.take(0).len() == 0);
        while i < n
            invariant
                n == s.len(),
                s == self.sources@,
                lc@ == unicode_lowercase(source@),
                i <= n,
                first_log_source(s.take(i as int), pipeline_id@, source@) is None,
            decreases n - i,
        {
            let sc = &self.sources[i];
            assert(s.take(i + 1).drop_last() =~= s.take(i as int));
            let mut prefix = sc.source_type.clone();
            push_str(&mut prefix, "-");
            if sc.enabled && (starts_with(pipeline_id, prefix.as_str()) || contains(
                lc.as_str(),
                sc.source_type.as_str(),
            )) {
                proof {
                    assert(sc.source_type@ + "-"@ == prefix@);
                    assert forall|j: int| 0 <= j <= n && j > i implies first_log_source(s.take(j), pipeline_id@, source@) == Some(i as int) by {
                        lemma_first_log_source_stays(s, pipeline_id@, source@, i as int + 1, j);
                    }
                    assert(s.take(n as int) =~= s);
                }
                return Some(i);
            }
            i = i + 1;
        }
        assert(s.take(n as int) =~= s);
        None
    }

    pub fn active_sources(&self) -> (r: Vec<&SourceConfig>)
        ensures
            r@.map_values(|s: &SourceConfig| *s) == enabled_sources(self.sources@),
    {
        let mut r: Vec<&SourceConfig> = Vec::new();
        let n = self.sources.len();
        let mut i: usize = n;
        let ghost s = self.sources@;
        // Built back to front so that each step prepends one source.
        let mut rev: Vec<&SourceConfig> = Vec::new();
        while i > 0
            invariant
                n == s.len(),
                s == self.sources@,
                i <= n,
                rev@.reverse().map_values(|x: &SourceConfig| *x) == enabled_sources(s.skip(i as int)),
            decreases i,
        {
            i = i - 1;
            assert(s.skip(i as int).drop_first() =~= s.skip(i + 1));
            assert(s.skip(i as int)[0] == s[i as int]);
            if self.sources[i].enabled {
                rev.push(&self.sources[i]);
            }
            assert(rev@.reverse().map_values(|x: &SourceConfig| *x) =~= enabled_sources(
                s.skip(i as int),
            ));
        }
        assert(s.skip(0) =~= s);
        let m = rev.len();
        let mut j: usize = m;
        while j > 0
            invariant
                m == rev@.len(),
                j <= m,
                r@ =~= rev@.reverse().take((m - j) as int),
            decreases j,
        {
            j = j - 1;
            r.push(rev[j]);
        }
        assert(r@ =~= rev@.reverse());
        r
    }
}

} // verus!
