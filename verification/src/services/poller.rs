//! The decisions of the background poller: what a poll result tells the
//! main loop, and how long to wait before the next poll.

use vstd::prelude::*;
use crate::instant::now_nanos;
use crate::models::Pipeline;
use crate::utils::error::{argus_message, ArgusError, ArgusErrorView, ApiErrorView};

verus! {

/// Messages sent from polling tasks to the main application loop.
#[derive(Debug)]
pub enum PollUpdate {
    /// A source successfully returned new pipeline data (source name, runs).
    PipelinesUpdated(String, Vec<Pipeline>),
    /// A source encountered an error during polling (source name, message).
    Error(String, String),
    /// A source was rate-limited; how long to wait, in milliseconds.
    RateLimited(String, i64),
}

/// How long a rate-limited source waits before it is polled again.
pub const RATE_LIMIT_BACKOFF_MS: i64 = 60_000;

/// Whether the message of an error names the rate limit.
pub open spec fn mentions_rate_limit(e: ArgusErrorView) -> bool {
    crate::text::has_infix(argus_message(e), "Rate limit exceeded"@)
}

/// The message that a poll of `source_name` sends for the outcome
/// `result`: the pipelines, a rate-limit notice when the error's message
/// mentions the rate limit, or the error's message.
pub fn poll_update(source_name: &str, result: Result<Vec<Pipeline>, ArgusError>) -> (u: PollUpdate)
    ensures
        match result {
            Ok(p) => u matches PollUpdate::PipelinesUpdated(n, q) && n@ == source_name@ && q == p,
            Err(e) => if mentions_rate_limit(e@) {
                u matches PollUpdate::RateLimited(n, d) && n@ == source_name@ && d
                    == RATE_LIMIT_BACKOFF_MS
            } else {
                u matches PollUpdate::Error(n, m) && n@ == source_name@ && m@ == argus_message(e@)
            },
        },
{
    match result {
        Ok(pipelines) => PollUpdate::PipelinesUpdated(source_name.to_owned(), pipelines),
        Err(e) => {
            let msg = e.message();
            if crate::text::contains(msg.as_str(), "Rate limit exceeded") {
                PollUpdate::RateLimited(source_name.to_owned(), RATE_LIMIT_BACKOFF_MS)
            } else {
                PollUpdate::Error(source_name.to_owned(), msg)
            }
        },
    }
}

/// The wait before the next poll: the interval shifted by a jitter of
/// -5..=5 seconds taken from `nanos`, and never under 5 seconds.
pub open spec fn poll_delay_spec(interval_secs: int, nanos: int) -> int {
    let jitter = nanos % 11 - 5;
    if interval_secs + jitter > 5 {
        interval_secs + jitter
    } else {
        5
    }
}

/// Seconds to sleep before the next poll, given the base interval and the
/// current time in nanoseconds (the jitter source).
pub fn poll_delay_secs(interval_secs: u64, nanos: u64) -> (r: u64)
    requires
        interval_secs <= i64::MAX - 5,
    ensures
        r as int == poll_delay_spec(interval_secs as int, nanos as int),
{
    let jitter: i64 = (nanos % 11) as i64 - 5;
    let effective: i64 = interval_secs as i64 + jitter;
    if effective > 5 {
        effective as u64
    } else {
        5
    }
}

/// The wait before the next poll stays within five seconds of the interval
/// and is never under five seconds.
pub proof fn lemma_poll_delay_bounds(interval_secs: int, nanos: int)
    requires
        interval_secs >= 0,
        nanos >= 0,
    ensures
        poll_delay_spec(interval_secs, nanos) >= 5,
        poll_delay_spec(interval_secs, nanos) <= (if interval_secs + 5 > 5 {
            interval_secs + 5
        } else {
            5
        }),
        interval_secs >= 10 ==> poll_delay_spec(interval_secs, nanos) >= interval_secs - 5,
{
}

/// Seconds to sleep before the next poll of a source polled every
/// `interval_secs` seconds, with the jitter taken from the clock.
pub fn next_poll_delay(interval_secs: u64) -> (r: u64)
    requires
        interval_secs <= i64::MAX - 5,
    ensures
        exists|nanos: u64| r as int == poll_delay_spec(interval_secs as int, nanos as int),
{
    let nanos = now_nanos();
    poll_delay_secs(interval_secs, nanos)
}

} // verus!
