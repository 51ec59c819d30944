//! Points in time and the calls into `chrono` that read the clock, parse
//! RFC 3339 text and format instants.
//!
//! An instant is a count of milliseconds since 1970-01-01T00:00:00Z; a
//! duration is a signed count of milliseconds.  The instants the library
//! holds are those that `chrono::DateTime<Utc>` can represent.

use vstd::prelude::*;
use chrono::{DateTime, Utc};

verus! {

#[verifier::external_type_specification]
#[verifier::external_body]
pub struct ExChronoParseError(chrono::ParseError);

/// Milliseconds of `DateTime::<Utc>::MIN_UTC` (-262143-01-01T00:00:00Z).
pub const MIN_INSTANT_MS: i64 = -8_334_601_315_200_000;

/// Milliseconds of `DateTime::<Utc>::MAX_UTC` (+262142-12-31T23:59:59.999Z).
pub const MAX_INSTANT_MS: i64 = 8_210_266_876_799_999;

/// Whether a millisecond count is an instant that `chrono` can represent.
pub open spec fn is_instant(ms: i64) -> bool {
    MIN_INSTANT_MS <= ms <= MAX_INSTANT_MS
}

/// Whether a mathematical millisecond count is an instant `chrono` can
/// represent.
pub open spec fn in_instant_range(ms: int) -> bool {
    MIN_INSTANT_MS <= ms <= MAX_INSTANT_MS
}

/// The current time.  Calls `chrono::Utc::now` and reads its millisecond
/// timestamp; what the clock says is not stated, only that it is an instant
/// `chrono` represents (every `DateTime<Utc>` lies between `MIN_UTC` and
/// `MAX_UTC`).
#[verifier::external_body]
pub fn now_millis() -> (t: i64)
    ensures
        is_instant(t),
{
    Utc::now().timestamp_millis()
}

/// The current time in nanoseconds since the epoch, reinterpreted as an
/// unsigned count.  Calls `chrono::Utc::now` and `timestamp_nanos_opt`
/// (0 where the time does not fit in nanoseconds); nothing is stated of the
/// value, which depends on the clock.
#[verifier::external_body]
pub fn now_nanos() -> (t: u64) {
    Utc::now().timestamp_nanos_opt().unwrap_or(0) as u64
}

/// Calls `chrono::DateTime::from_timestamp_millis`.  Its source accepts
/// exactly the millisecond counts between `MIN_UTC` and `MAX_UTC`, and the
/// documentation guarantees that the result round-trips through
/// `timestamp_millis`.
#[verifier::external_body]
pub(crate) fn checked_instant(ms: i64) -> (r: Option<i64>)
    ensures
        r is Some <==> is_instant(ms),
        r matches Some(t) ==> t == ms,
{
    match DateTime::from_timestamp_millis(ms) {
        Some(dt) => Some(dt.timestamp_millis()),
        None => None,
    }
}

/// The time that `chrono` reads from an RFC 3339 timestamp text, as whole
/// seconds since 1970-01-01T00:00:00Z and the nanoseconds past them, or
/// `None` where it rejects the text.
pub uninterp spec fn rfc3339_parts(s: Seq<char>) -> Option<(i64, u32)>;

/// The millisecond count of a time given as seconds and nanoseconds.
pub open spec fn parts_millis(p: (i64, u32)) -> int {
    p.0 * 1000 + p.1 / 1_000_000
}

/// Calls `chrono::DateTime::parse_from_rfc3339` and takes the result's
/// `timestamp` and `timestamp_subsec_nanos`.  The outcome is named
/// `rfc3339_parts`.  The nanoseconds stay under two billion (a leap second
/// may carry them past one billion), and the time lies in `chrono`'s range
/// (its RFC 3339 parser reads four-digit years).
#[verifier::external_body]
pub(crate) fn parse_rfc3339(s: &str) -> (r: Result<(i64, u32), chrono::ParseError>)
    ensures
        r is Ok <==> rfc3339_parts(s@) is Some,
        r matches Ok(p) ==> rfc3339_parts(s@) == Some(p) && p.1 < 2_000_000_000 && in_instant_range(
            parts_millis(p),
        ),
{
    match DateTime::parse_from_rfc3339(s) {
        Ok(dt) => Ok((dt.timestamp(), dt.timestamp_subsec_nanos())),
        Err(e) => Err(e),
    }
}

/// The text `chrono` writes for an instant with the pattern
/// `%Y-%m-%d %H:%M:%S UTC`.
pub uninterp spec fn utc_datetime_text(ms: i64) -> Seq<char>;

/// Formats an instant with `chrono`'s `format("%Y-%m-%d %H:%M:%S UTC")`;
/// the text is named `utc_datetime_text`.
#[verifier::external_body]
pub(crate) fn datetime_text(ms: i64) -> (r: String)
    requires
        is_instant(ms),
    ensures
        r@ == utc_datetime_text(ms),
{
    DateTime::from_timestamp_millis(ms).unwrap().format("%Y-%m-%d %H:%M:%S UTC").to_string()
}

/// The text `chrono` writes for an instant with the pattern `%H:%M:%S`.
pub uninterp spec fn utc_clock_text(ms: i64) -> Seq<char>;

/// Formats an instant with `chrono`'s `format("%H:%M:%S")`; the text is
/// named `utc_clock_text`.
#[verifier::external_body]
pub(crate) fn clock_text(ms: i64) -> (r: String)
    requires
        is_instant(ms),
    ensures
        r@ == utc_clock_text(ms),
{
    DateTime::from_timestamp_millis(ms).unwrap().format("%H:%M:%S").to_string()
}

} // verus!
