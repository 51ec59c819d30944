//! Error types and their messages.

use vstd::prelude::*;
use crate::text::{decimal, push_decimal, push_str};

verus! {

/// Main error type for the application.
#[derive(Debug)]
pub enum ArgusError {
    /// Configuration error
    Config(ConfigError),
    /// API error
    Api(ApiError),
    /// UI error
    Ui(UiError),
    /// Input/output error, carried as its message
    Io(String),
    /// Any other error
    Unknown(String),
}

/// Configuration-related errors.
#[derive(Debug)]
pub enum ConfigError {
    LoadFailed(String),
    ParseFailed(String),
    InvalidConfig(String),
    MissingField(String),
    MissingEnvVar(String),
    FileNotFound(String),
}

/// API communication errors.
#[derive(Debug)]
pub enum ApiError {
    RequestFailed(String),
    ParseFailed(String),
    AuthFailed(String),
    RateLimitExceeded,
    NotFound(String),
    ApiError { status: u16, message: String },
    Network(String),
    Timeout(String),
}

/// Terminal/UI errors.
#[derive(Debug)]
pub enum UiError {
    InitFailed(String),
    RenderFailed(String),
    Terminal(String),
    InputFailed(String),
}

/// Result type alias for Argus operations.
pub type Result<T> = core::result::Result<T, ArgusError>;

// ---------------------------------------------------------------------------
// Views: the same shapes with texts as character sequences
// ---------------------------------------------------------------------------

pub enum ConfigErrorView {
    LoadFailed(Seq<char>),
    ParseFailed(Seq<char>),
    InvalidConfig(Seq<char>),
    MissingField(Seq<char>),
    MissingEnvVar(Seq<char>),
    FileNotFound(Seq<char>),
}

pub enum ApiErrorView {
    RequestFailed(Seq<char>),
    ParseFailed(Seq<char>),
    AuthFailed(Seq<char>),
    RateLimitExceeded,
    NotFound(Seq<char>),
    ApiError { status: u16, message: Seq<char> },
    Network(Seq<char>),
    Timeout(Seq<char>),
}

pub enum UiErrorView {
    InitFailed(Seq<char>),
    RenderFailed(Seq<char>),
    Terminal(Seq<char>),
    InputFailed(Seq<char>),
}

pub enum ArgusErrorView {
    Config(ConfigErrorView),
    Api(ApiErrorView),
    Ui(UiErrorView),
    Io(Seq<char>),
    Unknown(Seq<char>),
}

impl View for ConfigError {
    type V = ConfigErrorView;

    open spec fn view(&self) -> ConfigErrorView {
        match self {
            ConfigError::LoadFailed(s) => ConfigErrorView::LoadFailed(s@),
            ConfigError::ParseFailed(s) => ConfigErrorView::ParseFailed(s@),
            ConfigError::InvalidConfig(s) => ConfigErrorView::InvalidConfig(s@),
            ConfigError::MissingField(s) => ConfigErrorView::MissingField(s@),
            ConfigError::MissingEnvVar(s) => ConfigErrorView::MissingEnvVar(s@),
            ConfigError::FileNotFound(s) => ConfigErrorView::FileNotFound(s@),
        }
    }
}

impl View for ApiError {
    type V = ApiErrorView;

    open spec fn view(&self) -> ApiErrorView {
        match self {
            ApiError::RequestFailed(s) => ApiErrorView::RequestFailed(s@),
            ApiError::ParseFailed(s) => ApiErrorView::ParseFailed(s@),
            ApiError::AuthFailed(s) => ApiErrorView::AuthFailed(s@),
            ApiError::RateLimitExceeded => ApiErrorView::RateLimitExceeded,
            ApiError::NotFound(s) => ApiErrorView::NotFound(s@),
            ApiError::ApiError { status, message } => ApiErrorView::ApiError {
                status: *status,
                message: message@,
            },
            ApiError::Network(s) => ApiErrorView::Network(s@),
            ApiError::Timeout(s) => ApiErrorView::Timeout(s@),
        }
    }
}

impl View for UiError {
    type V = UiErrorView;

    open spec fn view(&self) -> UiErrorView {
        match self {
            UiError::InitFailed(s) => UiErrorView::InitFailed(s@),
            UiError::RenderFailed(s) => UiErrorView::RenderFailed(s@),
            UiError::Terminal(s) => UiErrorView::Terminal(s@),
            UiError::InputFailed(s) => UiErrorView::InputFailed(s@),
        }
    }
}

impl View for ArgusError {
    type V = ArgusErrorView;

    open spec fn view(&self) -> ArgusErrorView {
        match self {
            ArgusError::Config(e) => ArgusErrorView::Config(e@),
            ArgusError::Api(e) => ArgusErrorView::Api(e@),
            ArgusError::Ui(e) => ArgusErrorView::Ui(e@),
            ArgusError::Io(s) => ArgusErrorView::Io(s@),
            ArgusError::Unknown(s) => ArgusErrorView::Unknown(s@),
        }
    }
}

// ---------------------------------------------------------------------------
// Messages
// ---------------------------------------------------------------------------

/// The message of a configuration error.
pub open spec fn config_message(e: ConfigErrorView) -> Seq<char> {
    match e {
        ConfigErrorView::LoadFailed(s) => "Failed to load configuration file: "@ + s,
        ConfigErrorView::ParseFailed(s) => "Failed to parse configuration: "@ + s,
        ConfigErrorView::InvalidConfig(s) => "Invalid configuration: "@ + s,
        ConfigErrorView::MissingField(s) => "Missing required field: "@ + s,
        ConfigErrorView::MissingEnvVar(s) => "Missing environment variable: "@ + s,
        ConfigErrorView::FileNotFound(s) => "Config file not found at path: "@ + s,
    }
}

/// The message of an API error.
pub open spec fn api_message(e: ApiErrorView) -> Seq<char> {
    match e {
        ApiErrorView::RequestFailed(s) => "HTTP request failed: "@ + s,
        ApiErrorView::ParseFailed(s) => "Failed to parse response: "@ + s,
        ApiErrorView::AuthFailed(s) => "Authentication failed: "@ + s,
        ApiErrorView::RateLimitExceeded => "Rate limit exceeded"@,
        ApiErrorView::NotFound(s) => "API endpoint not found: "@ + s,
        ApiErrorView::ApiError { status, message } => "API returned error: "@ + decimal(
            status as nat,
        ) + " - "@ + message,
        ApiErrorView::Network(s) => "Network error: "@ + s,
        ApiErrorView::Timeout(s) => "Timeout: "@ + s,
    }
}

/// The message of a UI error.
pub open spec fn ui_message(e: UiErrorView) -> Seq<char> {
    match e {
        UiErrorView::InitFailed(s) => "Failed to initialize terminal: "@ + s,
        UiErrorView::RenderFailed(s) => "Failed to render UI: "@ + s,
        UiErrorView::Terminal(s) => "Terminal error: "@ + s,
        UiErrorView::InputFailed(s) => "Failed to handle input: "@ + s,
    }
}

/// The message of an error.
pub open spec fn argus_message(e: ArgusErrorView) -> Seq<char> {
    match e {
        ArgusErrorView::Config(c) => "Configuration error: "@ + config_message(c),
        ArgusErrorView::Api(a) => "API error: "@ + api_message(a),
        ArgusErrorView::Ui(u) => "UI error: "@ + ui_message(u),
        ArgusErrorView::Io(s) => "IO error: "@ + s,
        ArgusErrorView::Unknown(s) => "Unknown error: "@ + s,
    }
}

fn prefixed(prefix: &str, s: &str) -> (r: String)
    ensures
        r@ == prefix@ + s@,
{
    let mut r = prefix.to_owned();
    push_str(&mut r, s);
    r
}

impl ConfigError {
    /// The error's message.
    pub fn message(&self) -> (r: String)
        ensures
            r@ == config_message(self@),
    {
        match self {
            ConfigError::LoadFailed(s) => prefixed("Failed to load configuration file: ", s),
            ConfigError::ParseFailed(s) => prefixed("Failed to parse configuration: ", s),
            ConfigError::InvalidConfig(s) => prefixed("Invalid configuration: ", s),
            ConfigError::MissingField(s) => prefixed("Missing required field: ", s),
            ConfigError::MissingEnvVar(s) => prefixed("Missing environment variable: ", s),
            ConfigError::FileNotFound(s) => prefixed("Config file not found at path: ", s),
        }
    }
}

impl ApiError {
    /// The error's message.
    pub fn message(&self) -> (r: String)
        ensures
            r@ == api_message(self@),
    {
        match self {
            ApiError::RequestFailed(s) => prefixed("HTTP request failed: ", s),
            ApiError::ParseFailed(s) => prefixed("Failed to parse response: ", s),
            ApiError::AuthFailed(s) => prefixed("Authentication failed: ", s),
            ApiError::RateLimitExceeded => "Rate limit exceeded".to_owned(),
            ApiError::NotFound(s) => prefixed("API endpoint not found: ", s),
            ApiError::ApiError { status, message } => {
                let mut r = "API returned error: ".to_owned();
                push_decimal(&mut r, *status as u64);
                push_str(&mut r, " - ");
                push_str(&mut r, message);
                assert(r@ =~= api_message(self@));
                r
            },
            ApiError::Network(s) => prefixed("Network error: ", s),
            ApiError::Timeout(s) => prefixed("Timeout: ", s),
        }
    }
}

impl UiError {
    /// The error's message.
    pub fn message(&self) -> (r: String)
        ensures
            r@ == ui_message(self@),
    {
        match self {
            UiError::InitFailed(s) => prefixed("Failed to initialize terminal: ", s),
            UiError::RenderFailed(s) => prefixed("Failed to render UI: ", s),
            UiError::Terminal(s) => prefixed("Terminal error: ", s),
            UiError::InputFailed(s) => prefixed("Failed to handle input: ", s),
        }
    }
}

impl ArgusError {
    /// The error's message.
    pub fn message(&self) -> (r: String)
        ensures
            r@ == argus_message(self@),
    {
        match self {
            ArgusError::Config(e) => {
                let m = e.message();
                prefixed("Configuration error: ", &m)
            },
            ArgusError::Api(e) => {
                let m = e.message();
                prefixed("API error: ", &m)
            },
            ArgusError::Ui(e) => {
                let m = e.message();
                prefixed("UI error: ", &m)
            },
            ArgusError::Io(s) => prefixed("IO error: ", s),
            ArgusError::Unknown(s) => prefixed("Unknown error: ", s),
        }
    }

    /// Whether the error is the API's rate-limit error.
    pub fn is_rate_limit(&self) -> (r: bool)
        ensures
            r == (self@ == ArgusErrorView::Api(ApiErrorView::RateLimitExceeded)),
    {
        match self {
            ArgusError::Api(ApiError::RateLimitExceeded) => true,
            _ => false,
        }
    }
}

// ---------------------------------------------------------------------------
// Adding context
// ---------------------------------------------------------------------------

/// The error that results from adding the context `ctx` to `e`: the text
/// becomes `"{ctx}: {message}"` and the kind is kept at the top level.
pub open spec fn with_context_spec(e: ArgusErrorView, ctx: Seq<char>) -> ArgusErrorView {
    match e {
        ArgusErrorView::Config(c) => ArgusErrorView::Config(
            ConfigErrorView::InvalidConfig(ctx + ": "@ + config_message(c)),
        ),
        ArgusErrorView::Api(a) => ArgusErrorView::Api(
            ApiErrorView::RequestFailed(ctx + ": "@ + api_message(a)),
        ),
        ArgusErrorView::Ui(u) => ArgusErrorView::Ui(
            UiErrorView::RenderFailed(ctx + ": "@ + ui_message(u)),
        ),
        _ => ArgusErrorView::Unknown(ctx + ": "@ + argus_message(e)),
    }
}

fn context_text(ctx: &str, msg: &str) -> (r: String)
    ensures
        r@ == ctx@ + ": "@ + msg@,
{
    let mut r = ctx.to_owned();
    push_str(&mut r, ": ");
    push_str(&mut r, msg);
    r
}

/// Adds the context `ctx` to an error (see `with_context_spec`).
pub fn with_context(e: ArgusError, ctx: &str) -> (r: ArgusError)
    ensures
        r@ == with_context_spec(e@, ctx@),
{
    match e {
        ArgusError::Config(c) => {
            let m = c.message();
            ArgusError::Config(ConfigError::InvalidConfig(context_text(ctx, &m)))
        },
        ArgusError::Api(a) => {
            let m = a.message();
            ArgusError::Api(ApiError::RequestFailed(context_text(ctx, &m)))
        },
        ArgusError::Ui(u) => {
            let m = u.message();
            ArgusError::Ui(UiError::RenderFailed(context_text(ctx, &m)))
        },
        other => {
            let m = other.message();
            ArgusError::Unknown(context_text(ctx, &m))
        },
    }
}

/// Helper trait to add context to errors.
pub trait ResultExt<T>: Sized {
    fn context(self, ctx: &str) -> Result<T>;
}

impl<T> ResultExt<T> for core::result::Result<T, ArgusError> {
    fn context(self, ctx: &str) -> (r: Result<T>)
        ensures
            match self {
                Ok(v) => r == Ok::<T, ArgusError>(v),
                Err(e) => r matches Err(f) && f@ == with_context_spec(e@, ctx@),
            },
    {
        match self {
            Ok(v) => Ok(v),
            Err(e) => Err(with_context(e, ctx)),
        }
    }
}

impl<T> ResultExt<T> for core::result::Result<T, ConfigError> {
    fn context(self, ctx: &str) -> (r: Result<T>)
        ensures
            match self {
                Ok(v) => r == Ok::<T, ArgusError>(v),
                Err(e) => r matches Err(f) && f@ == with_context_spec(
                    ArgusErrorView::Config(e@),
                    ctx@,
                ),
            },
    {
        match self {
            Ok(v) => Ok(v),
            Err(e) => Err(with_context(ArgusError::Config(e), ctx)),
        }
    }
}

impl<T> ResultExt<T> for core::result::Result<T, ApiError> {
    fn context(self, ctx: &str) -> (r: Result<T>)
        ensures
            match self {
                Ok(v) => r == Ok::<T, ArgusError>(v),
                Err(e) => r matches Err(f) && f@ == with_context_spec(ArgusErrorView::Api(e@), ctx@),
            },
    {
        match self {
            Ok(v) => Ok(v),
            Err(e) => Err(with_context(ArgusError::Api(e), ctx)),
        }
    }
}

impl<T> ResultExt<T> for core::result::Result<T, UiError> {
    fn context(self, ctx: &str) -> (r: Result<T>)
        ensures
            match self {
                Ok(v) => r == Ok::<T, ArgusError>(v),
                Err(e) => r matches Err(f) && f@ == with_context_spec(ArgusErrorView::Ui(e@), ctx@),
            },
    {
        match self {
            Ok(v) => Ok(v),
            Err(e) => Err(with_context(ArgusError::Ui(e), ctx)),
        }
    }
}

} // verus!
