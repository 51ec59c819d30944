//! Human-readable renderings of instants and durations.

use vstd::prelude::*;
use crate::instant::{
    checked_instant, clock_text, datetime_text, is_instant, now_millis, parse_rfc3339,
    parts_millis, rfc3339_parts, utc_clock_text, utc_datetime_text,
};
use crate::text::{decimal, push_decimal, push_str};

verus! {

/// Whole seconds in a millisecond count, rounded toward zero (as
/// `chrono::TimeDelta::num_seconds` counts them).
pub open spec fn whole_seconds(ms: int) -> int {
    if ms >= 0 {
        ms / 1000
    } else {
        -((-ms) / 1000)
    }
}

/// `decimal(n)` followed by `suffix`.
pub open spec fn num_text(n: int, suffix: Seq<char>) -> Seq<char> {
    decimal(n as nat) + suffix
}

/// The long rendering of a duration of `t` whole seconds.
pub open spec fn duration_text(t: int) -> Seq<char> {
    if t < 0 {
        "0s"@
    } else {
        let h = t / 3600;
        let m = (t % 3600) / 60;
        let s = t % 60;
        if h > 0 {
            num_text(h, "h "@) + num_text(m, "m "@) + num_text(s, "s"@)
        } else if m > 0 {
            num_text(m, "m "@) + num_text(s, "s"@)
        } else {
            num_text(s, "s"@)
        }
    }
}

/// The compact rendering of a duration of `t` whole seconds.
pub open spec fn duration_compact_text(t: int) -> Seq<char> {
    if t < 0 {
        "0s"@
    } else {
        let h = t / 3600;
        let m = (t % 3600) / 60;
        let s = t % 60;
        if h > 0 {
            if m > 0 {
                num_text(h, "h "@) + num_text(m, "m"@)
            } else {
                num_text(h, "h"@)
            }
        } else if m > 0 {
            num_text(m, "m"@)
        } else {
            num_text(s, "s"@)
        }
    }
}

/// `n` units ago, in words: "1 hour ago", "2 hours ago".
pub open spec fn ago_text(n: int, unit: Seq<char>) -> Seq<char> {
    decimal(n as nat) + " "@ + unit + (if n == 1 {
        ""@
    } else {
        "s"@
    }) + " ago"@
}

/// How long ago an instant was, given `diff` milliseconds between it and
/// now, in the largest whole unit (e.g. "2 hours ago").
pub open spec fn relative_text(diff: int) -> Seq<char> {
    let secs = whole_seconds(diff);
    if secs < 0 {
        "in the future"@
    } else if secs < 60 {
        ago_text(secs, "second"@)
    } else if secs / 60 < 60 {
        ago_text(secs / 60, "minute"@)
    } else if secs / 3600 < 24 {
        ago_text(secs / 3600, "hour"@)
    } else if secs / 86400 < 7 {
        ago_text(secs / 86400, "day"@)
    } else if secs / 86400 / 7 < 4 {
        ago_text(secs / 86400 / 7, "week"@)
    } else {
        ago_text(secs / 86400 / 30, "month"@)
    }
}

/// The long rendering of a duration of `t` whole seconds shows its hours,
/// minutes (under 60) and seconds (under 60), which add up to `t`; leading
/// zero hours, and then zero minutes, are left out.
pub proof fn lemma_duration_text_parts(t: int)
    requires
        t >= 0,
    ensures
        exists|h: int, m: int, s: int|
            #![trigger h * 3600 + m * 60 + s]
            h >= 0 && 0 <= m < 60 && 0 <= s < 60 && h * 3600 + m * 60 + s == t && duration_text(t)
                == (if h > 0 {
                decimal(h as nat) + "h "@ + decimal(m as nat) + "m "@ + decimal(s as nat) + "s"@
            } else if m > 0 {
                decimal(m as nat) + "m "@ + decimal(s as nat) + "s"@
            } else {
                decimal(s as nat) + "s"@
            }),
{
    let h = t / 3600;
    let m = (t % 3600) / 60;
    let s = t % 60;
    assert(h * 3600 + m * 60 + s == t);
    assert(duration_text(t) == (if h > 0 {
        decimal(h as nat) + "h "@ + decimal(m as nat) + "m "@ + decimal(s as nat) + "s"@
    } else if m > 0 {
        decimal(m as nat) + "m "@ + decimal(s as nat) + "s"@
    } else {
        decimal(s as nat) + "s"@
    }));
}

/// How long ago an instant was is told in the largest unit that fits, in
/// whole units: an instant `n` whole minutes (1 to 59) back reads
/// "n minutes ago", `n` whole hours (1 to 23) back "n hours ago", `n` whole
/// days (1 to 6) back "n days ago", under a minute back in seconds, and a
/// later instant "in the future".
pub proof fn lemma_relative_text_units(diff: int)
    ensures
        whole_seconds(diff) < 0 ==> relative_text(diff) == "in the future"@,
        0 <= whole_seconds(diff) < 60 ==> relative_text(diff) == ago_text(whole_seconds(diff), "second"@),
        60 <= whole_seconds(diff) < 3600 ==> exists|n: int|
            1 <= n < 60 && n * 60 <= whole_seconds(diff) < n * 60 + 60 && #[trigger] relative_text(diff)
                == ago_text(n, "minute"@),
        3600 <= whole_seconds(diff) < 86400 ==> exists|n: int|
            1 <= n < 24 && n * 3600 <= whole_seconds(diff) < n * 3600 + 3600 && #[trigger] relative_text(
                diff,
            ) == ago_text(n, "hour"@),
        86400 <= whole_seconds(diff) < 7 * 86400 ==> exists|n: int|
            1 <= n < 7 && n * 86400 <= whole_seconds(diff) < n * 86400 + 86400 && #[trigger] relative_text(
                diff,
            ) == ago_text(n, "day"@),
{
    let w = whole_seconds(diff);
    if 60 <= w < 3600 {
        let n = w / 60;
        assert(n * 60 <= w < n * 60 + 60);
        assert(relative_text(diff) == ago_text(n, "minute"@));
    }
    if 3600 <= w < 86400 {
        let n = w / 3600;
        assert(n * 3600 <= w < n * 3600 + 3600);
        assert(relative_text(diff) == ago_text(n, "hour"@));
    }
    if 86400 <= w < 7 * 86400 {
        let n = w / 86400;
        assert(n * 86400 <= w < n * 86400 + 86400);
        assert(relative_text(diff) == ago_text(n, "day"@));
    }
}

/// Whole seconds in a millisecond count, rounded toward zero.
pub fn num_seconds(ms: i64) -> (r: i64)
    ensures
        r as int == whole_seconds(ms as int),
{
    if ms >= 0 {
        ms / 1000
    } else {
        let a: u64 = (-(ms + 1)) as u64 + 1;
        assert(a as int == -(ms as int));
        -((a / 1000) as i64)
    }
}

fn push_num(s: &mut String, n: i64, suffix: &str)
    requires
        n >= 0,
    ensures
        final(s)@ == old(s)@ + num_text(n as int, suffix@),
{
    push_decimal(s, n as u64);
    push_str(s, suffix);
    assert(final(s)@ =~= old(s)@ + num_text(n as int, suffix@));
}

/// Format a duration as a human-readable string (e.g. "1h 1m 5s").
pub fn format_duration(duration_ms: i64) -> (r: String)
    ensures
        r@ == duration_text(whole_seconds(duration_ms as int)),
{
    let total = num_seconds(duration_ms);
    if total < 0 {
        return "0s".to_owned();
    }
    let hours = total / 3600;
    let minutes = (total % 3600) / 60;
    let seconds = total % 60;
    let mut r = String::new();
    if hours > 0 {
        push_num(&mut r, hours, "h ");
        push_num(&mut r, minutes, "m ");
        push_num(&mut r, seconds, "s");
    } else if minutes > 0 {
        push_num(&mut r, minutes, "m ");
        push_num(&mut r, seconds, "s");
    } else {
        push_num(&mut r, seconds, "s");
    }
    assert(r@ =~= duration_text(total as int));
    r
}

/// Format a duration as a compact string (e.g. "2h 30m").
pub fn format_duration_compact(duration_ms: i64) -> (r: String)
    ensures
        r@ == duration_compact_text(whole_seconds(duration_ms as int)),
{
    let total = num_seconds(duration_ms);
    if total < 0 {
        return "0s".to_owned();
    }
    let hours = total / 3600;
    let minutes = (total % 3600) / 60;
    let seconds = total % 60;
    let mut r = String::new();
    if hours > 0 {
        if minutes > 0 {
            push_num(&mut r, hours, "h ");
            push_num(&mut r, minutes, "m");
        } else {
            push_num(&mut r, hours, "h");
        }
    } else if minutes > 0 {
        push_num(&mut r, minutes, "m");
    } else {
        push_num(&mut r, seconds, "s");
    }
    assert(r@ =~= duration_compact_text(total as int));
    r
}

fn push_ago(s: &mut String, n: i64, unit: &str)
    requires
        n >= 0,
    ensures
        final(s)@ == old(s)@ + ago_text(n as int, unit@),
{
    push_decimal(s, n as u64);
    push_str(s, " ");
    push_str(s, unit);
    if n != 1 {
        push_str(s, "s");
    }
    push_str(s, " ago");
    proof {
        reveal_strlit("");
    }
    assert(final(s)@ =~= old(s)@ + ago_text(n as int, unit@));
}

/// How long before `now` the instant `dt` was (e.g. "2 hours ago").
pub fn format_relative_at(dt: i64, now: i64) -> (r: String)
    requires
        is_instant(dt),
        is_instant(now),
    ensures
        r@ == relative_text(now - dt),
{
    let secs = num_seconds(now - dt);
    if secs < 0 {
        return "in the future".to_owned();
    }
    let mut r = String::new();
    if secs < 60 {
        push_ago(&mut r, secs, "second");
    } else if secs / 60 < 60 {
        push_ago(&mut r, secs / 60, "minute");
    } else if secs / 3600 < 24 {
        push_ago(&mut r, secs / 3600, "hour");
    } else if secs / 86400 < 7 {
        push_ago(&mut r, secs / 86400, "day");
    } else if secs / 86400 / 7 < 4 {
        push_ago(&mut r, secs / 86400 / 7, "week");
    } else {
        push_ago(&mut r, secs / 86400 / 30, "month");
    }
    assert(r@ =~= relative_text(now - dt));
    r
}

/// Format an instant relative to the current time (e.g. "2 hours ago").
pub fn format_relative(dt: i64) -> (r: String)
    requires
        is_instant(dt),
    ensures
        exists|now: i64| is_instant(now) && r@ == #[trigger] relative_text(now - dt),
{
    let now = now_millis();
    let r = format_relative_at(dt, now);
    assert(r@ == relative_text(now - dt));
    r
}

/// Format an instant as `YYYY-MM-DD HH:MM:SS UTC`.
pub fn format_datetime(dt: i64) -> (r: String)
    requires
        is_instant(dt),
    ensures
        r@ == utc_datetime_text(dt),
{
    datetime_text(dt)
}

/// Format the time of day of an instant as `HH:MM:SS`.
pub fn format_clock(dt: i64) -> (r: String)
    requires
        is_instant(dt),
    ensures
        r@ == utc_clock_text(dt),
{
    clock_text(dt)
}

/// Parse an RFC 3339 timestamp into an instant.
pub fn parse_timestamp(s: &str) -> (r: core::result::Result<i64, chrono::ParseError>)
    ensures
        r is Ok <==> rfc3339_parts(s@) is Some,
        r matches Ok(t) ==> rfc3339_parts(s@) matches Some(p) && t == parts_millis(p) && is_instant(t),
{
    match parse_rfc3339(s) {
        Ok((secs, nanos)) => Ok(secs * 1000 + (nanos / 1_000_000) as i64),
        Err(e) => Err(e),
    }
}

/// The instant `millis` milliseconds after the epoch, or `now` where that
/// lies beyond what `chrono` represents.
pub fn millis_to_instant(millis: u64, now: i64) -> (r: i64)
    requires
        is_instant(now),
    ensures
        is_instant(r),
        r == (if millis <= MAX_INSTANT_MS_U64 { millis as i64 } else { now }),
{
    if millis > 9_223_372_036_854_775_807 {
        return now;
    }
    match checked_instant(millis as i64) {
        Some(t) => t,
        None => now,
    }
}

/// `crate::instant::MAX_INSTANT_MS` as an unsigned count.
pub const MAX_INSTANT_MS_U64: u64 = 8_210_266_876_799_999;

} // verus!
