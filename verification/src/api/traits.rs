//! What every platform client shares: log entries and the retry policy.

use vstd::prelude::*;
use crate::text::{decimal, lines_spec, parse_unsigned, parse_unsigned_spec, split_lines, string_views};
use crate::utils::error::{ApiError, ApiErrorView};

verus! {

/// A log entry from a CI/CD pipeline stage.
#[derive(Debug, Clone)]
pub struct LogEntry {
    /// Line number in the log (1-indexed)
    pub line: usize,
    /// The raw log text for this line
    pub text: String,
    /// Optional time embedded in the log line: whole seconds since
    /// 1970-01-01T00:00:00Z and the nanoseconds past them
    pub timestamp: Option<(i64, u32)>,
}

/// The entries of a plain log: one per line, numbered from 1, without
/// timestamps.
pub open spec fn plain_entries(raw: Seq<char>, r: Seq<LogEntry>) -> bool {
    &&& r.len() == lines_spec(raw).len()
    &&& forall|i: int|
        0 <= i < r.len() ==> (#[trigger] r[i]).line == i + 1 && r[i].text@ == lines_spec(raw)[i]
            && r[i].timestamp is None
}

/// Split a plain log into numbered entries.
pub fn plain_log_entries(raw: &str) -> (r: Vec<LogEntry>)
    ensures
        plain_entries(raw@, r@),
{
    let lines = split_lines(raw);
    let ghost views = string_views(lines@);
    let mut rest = lines;
    let mut r: Vec<LogEntry> = Vec::new();
    let ghost mut k: int = 0;
    let n = rest.len();
    while rest.len() > 0
        invariant
            0 <= k <= views.len(),
            n == views.len(),
            views == lines_spec(raw@),
            string_views(rest@) == views.skip(k),
            r@.len() == k,
            forall|i: int|
                0 <= i < k ==> (#[trigger] r@[i]).line == i + 1 && r@[i].text@ == views[i]
                    && r@[i].timestamp is None,
        decreases rest@.len(),
    {
        assert(string_views(rest@).len() == rest@.len());
        assert(views.skip(k).len() > 0);
        assert(string_views(rest@)[0] == views[k]);
        let ghost before = rest@;
        let text = rest.remove(0);
        let line = r.len() + 1;
        r.push(LogEntry { line, text, timestamp: None });
        proof {
            k = k + 1;
        }
        assert forall|i: int| 0 <= i < rest@.len() implies string_views(rest@)[i] == views.skip(k)[i] by {
            assert(rest@[i] == before[i + 1]);
            assert(string_views(before)[i + 1] == views.skip(k - 1)[i + 1]);
        }
        assert(string_views(rest@) =~= views.skip(k));
    }
    r
}

/// Retry policy used by API clients.  Delays are in milliseconds.
#[derive(Debug, Clone)]
pub struct RetryPolicy {
    /// Maximum number of retry attempts (not counting the initial call)
    pub max_retries: u32,
    /// Base delay before the first retry; subsequent retries double this
    pub base_delay: u64,
    /// Cap on how long any single delay can grow
    pub max_delay: u64,
}

impl Default for RetryPolicy {
    fn default() -> (r: Self)
        ensures
            r.max_retries == 3,
            r.base_delay == 1000,
            r.max_delay == 30000,
    {
        RetryPolicy { max_retries: 3, base_delay: 1000, max_delay: 30000 }
    }
}


// ---------------------------------------------------------------------------
// Retry decisions
// ---------------------------------------------------------------------------

/// Where a request stands in its retry loop.
#[derive(Debug, Clone, Copy, PartialEq, Eq, Structural)]
pub struct RetryState {
    /// Retries made so far
    pub attempt: u32,
    /// Delay before the next back-off retry, in milliseconds
    pub delay: u64,
}

/// The outcome of one HTTP attempt.
#[derive(Debug)]
pub enum Attempt {
    /// The server answered with `status`; `retry_after` is the text of its
    /// `Retry-After` header, where there is one that is visible ASCII.
    Response { status: u16, retry_after: Option<String> },
    /// The request failed before an answer came (message included).
    NetworkError(String),
}

pub enum AttemptView {
    Response { status: u16, retry_after: Option<Seq<char>> },
    NetworkError(Seq<char>),
}

impl View for Attempt {
    type V = AttemptView;

    open spec fn view(&self) -> AttemptView {
        match self {
            Attempt::Response { status, retry_after } => AttemptView::Response {
                status: *status,
                retry_after: match retry_after {
                    Some(s) => Some(s@),
                    None => None,
                },
            },
            Attempt::NetworkError(m) => AttemptView::NetworkError(m@),
        }
    }
}

/// What to do after an attempt.
#[derive(Debug)]
pub enum RetryDecision {
    /// The answer is good; use it.
    Proceed,
    /// Give up with this error.
    Fail(ApiError),
    /// Wait this many seconds, then try again.
    WaitSeconds(u64),
    /// Wait this many milliseconds, then try again.
    WaitMillis(u64),
}

pub enum RetryDecisionView {
    Proceed,
    Fail(ApiErrorView),
    WaitSeconds(u64),
    WaitMillis(u64),
}

impl View for RetryDecision {
    type V = RetryDecisionView;

    open spec fn view(&self) -> RetryDecisionView {
        match self {
            RetryDecision::Proceed => RetryDecisionView::Proceed,
            RetryDecision::Fail(e) => RetryDecisionView::Fail(e@),
            RetryDecision::WaitSeconds(s) => RetryDecisionView::WaitSeconds(*s),
            RetryDecision::WaitMillis(m) => RetryDecisionView::WaitMillis(*m),
        }
    }
}

/// The back-off delay after `delay`: doubled, but capped at `max`.
pub open spec fn next_delay(delay: u64, max: u64) -> u64 {
    if 2 * delay <= max {
        (2 * delay) as u64
    } else {
        max
    }
}

/// The seconds a `Retry-After` header asks for; 60 when it is missing or
/// not an unsigned number.
pub open spec fn retry_after_secs(h: Option<Seq<char>>) -> u64 {
    match h {
        Some(t) => match parse_unsigned_spec(t, u64::MAX as int) {
            Some(v) => v as u64,
            None => 60,
        },
        None => 60,
    }
}

/// A back-off retry, if any retry is left; otherwise failure with `e`.
pub open spec fn backoff_or_fail(p: RetryPolicy, st: RetryState, e: ApiErrorView) -> (RetryState, RetryDecisionView) {
    if st.attempt < p.max_retries {
        (
            RetryState { attempt: (st.attempt + 1) as u32, delay: next_delay(st.delay, p.max_delay) },
            RetryDecisionView::WaitMillis(st.delay),
        )
    } else {
        (st, RetryDecisionView::Fail(e))
    }
}

/// A retry after the server's `Retry-After` time, if any retry is left;
/// otherwise failure for the rate limit.
pub open spec fn rate_limit_or_fail(p: RetryPolicy, st: RetryState, h: Option<Seq<char>>) -> (RetryState, RetryDecisionView) {
    if st.attempt < p.max_retries {
        (
            RetryState { attempt: (st.attempt + 1) as u32, delay: st.delay },
            RetryDecisionView::WaitSeconds(retry_after_secs(h)),
        )
    } else {
        (st, RetryDecisionView::Fail(ApiErrorView::RateLimitExceeded))
    }
}

/// Whether one step of a retry loop keeps to the policy: it waits only
/// while retries are left, and then counts one more retry; any other
/// decision leaves the state as it was; a back-off wait is the delay that
/// was due; and the next delay stays within the cap once it is within it.
pub open spec fn retry_step_ok(p: RetryPolicy, st: RetryState, next: RetryState, d: RetryDecisionView) -> bool {
    &&& (d is WaitSeconds || d is WaitMillis) ==> st.attempt < p.max_retries && next.attempt
        == st.attempt + 1
    &&& !(d is WaitSeconds || d is WaitMillis) ==> next == st
    &&& (d matches RetryDecisionView::WaitMillis(w) ==> w == st.delay)
    &&& st.delay <= p.max_delay ==> next.delay <= p.max_delay
}

pub open spec fn is_server_error(status: u16) -> bool {
    500 <= status <= 599
}

pub open spec fn is_success(status: u16) -> bool {
    200 <= status <= 299
}

/// The back-off delay after `delay`: doubled, but capped at `max`.
pub fn next_backoff(delay: u64, max: u64) -> (r: u64)
    ensures
        r == next_delay(delay, max),
{
    if delay > max / 2 {
        max
    } else {
        delay * 2
    }
}

/// The seconds a `Retry-After` header asks for (60 by default).
pub fn parse_retry_after(h: &Option<String>) -> (r: u64)
    ensures
        r == retry_after_secs(match h {
            Some(s) => Some(s@),
            None => None,
        }),
{
    match h {
        Some(t) => match parse_unsigned(t.as_str(), u64::MAX) {
            Some(v) => v,
            None => 60,
        },
        None => 60,
    }
}

pub(crate) fn backoff_step(p: &RetryPolicy, st: &mut RetryState, e: ApiError) -> (d: RetryDecision)
    ensures
        (*final(st), d@) == backoff_or_fail(*p, *old(st), e@),
{
    if st.attempt < p.max_retries {
        let wait = st.delay;
        st.attempt = st.attempt + 1;
        st.delay = next_backoff(st.delay, p.max_delay);
        RetryDecision::WaitMillis(wait)
    } else {
        RetryDecision::Fail(e)
    }
}

pub(crate) fn rate_limit_step(p: &RetryPolicy, st: &mut RetryState, h: &Option<String>) -> (d: RetryDecision)
    ensures
        (*final(st), d@) == rate_limit_or_fail(*p, *old(st), match h {
            Some(s) => Some(s@),
            None => None,
        }),
{
    if st.attempt < p.max_retries {
        st.attempt = st.attempt + 1;
        RetryDecision::WaitSeconds(parse_retry_after(h))
    } else {
        RetryDecision::Fail(ApiError::RateLimitExceeded)
    }
}

/// The text of an HTTP status code as `reqwest::StatusCode` displays it
/// (the number and its reason phrase).
pub uninterp spec fn http_status_text(code: u16) -> Seq<char>;

/// Calls `reqwest::StatusCode::from_u16` and `to_string`; the text is named
/// `http_status_text`.  `from_u16` accepts exactly the codes 100 to 999.
#[verifier::external_body]
pub(crate) fn status_text(code: u16) -> (r: String)
    requires
        100 <= code <= 999,
    ensures
        r@ == http_status_text(code),
{
    reqwest::StatusCode::from_u16(code).unwrap().to_string()
}

} // verus!
