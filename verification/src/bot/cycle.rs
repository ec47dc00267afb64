//! Wall-clock time in JST and the daily cutoff.
use vstd::prelude::*;
use chrono::Timelike;
use crate::domain::step::StepLog;
use crate::error::{BotError, ConfigError};
use crate::text::push_str;

verus! {

/// Seconds in a day.
pub const SECS_PER_DAY: i64 = 86_400;

/// An instant with a fixed UTC offset: Unix seconds, the nanoseconds within
/// the second (at least 10^9 only during a leap second) and the offset in
/// seconds east of UTC.
#[derive(Debug, Clone, Copy, PartialEq, Eq, Structural)]
pub struct OffsetDateTime {
    pub timestamp: i64,
    pub nanos: u32,
    pub offset_secs: i32,
}

/// A time of day: seconds since midnight and nanoseconds (leap seconds
/// carry nanoseconds of at least 10^9).
#[derive(Debug, Clone, Copy, PartialEq, Eq, Structural)]
pub struct TimeOfDay {
    pub secs: u32,
    pub nanos: u32,
}

/// Report of one cycle.
#[derive(Debug, Clone)]
pub struct CycleReport {
    pub started_at: OffsetDateTime,
    pub completed_at: OffsetDateTime,
    pub steps: Vec<StepLog>,
    pub success: bool,
    pub error: Option<String>,
}

/// `a` comes strictly before `b` (instants compare by Unix time).
pub open spec fn before(a: OffsetDateTime, b: OffsetDateTime) -> bool {
    a.timestamp < b.timestamp || (a.timestamp == b.timestamp && a.nanos < b.nanos)
}

/// JST: nine hours east of UTC.
pub fn jst_offset() -> (r: i32)
    ensures
        r == 9 * 3600,
{
    9 * 3600
}

/// Calls `chrono::Utc::now()` and returns its Unix seconds and its
/// sub-second nanoseconds. Trusted: the nanoseconds are below 2 * 10^9, as
/// chrono documents for `timestamp_subsec_nanos`, and the seconds are not
/// negative (chrono measures the system time from the Unix epoch and stops
/// on a clock set earlier) and below 2^50 (a `DateTime` ends with the year
/// 262143, about 8.3 * 10^12 seconds). The instant itself is the clock's.
#[verifier::external_body]
fn utc_now() -> (r: (i64, u32))
    ensures
        0 <= r.0 < 0x4_0000_0000_0000,
        r.1 < 2_000_000_000,
{
    let now = chrono::Utc::now();
    (now.timestamp(), now.timestamp_subsec_nanos())
}

/// The current instant, at the JST offset.
pub fn now_jst() -> (r: OffsetDateTime)
    ensures
        r.offset_secs == 9 * 3600,
        r.nanos < 2_000_000_000,
        representable(r),
{
    let (ts, ns) = utc_now();
    OffsetDateTime { timestamp: ts, nanos: ns, offset_secs: jst_offset() }
}

/// Name for what `chrono::NaiveTime::parse_from_str(s, fmt)` gives: the
/// seconds since midnight and the nanoseconds of the parsed time, or the
/// text of chrono's parse error.
pub uninterp spec fn chrono_parse_time(s: Seq<char>, fmt: Seq<char>) -> Result<(u32, u32), Seq<char>>;

/// Calls `chrono::NaiveTime::parse_from_str`. Trusted: the result is the
/// named result `chrono_parse_time` of the two texts (the error as its
/// `Display` text), and a parsed time has fewer than 86400 seconds and
/// fewer than 2 * 10^9 nanoseconds (the invariant of `NaiveTime`).
#[verifier::external_body]
fn naive_time_parse(s: &str, fmt: &str) -> (r: Result<(u32, u32), String>)
    ensures
        match r {
            Ok(v) => chrono_parse_time(s@, fmt@) == Ok::<(u32, u32), Seq<char>>(v) && v.0 < 86_400 && v.1
                < 2_000_000_000,
            Err(e) => chrono_parse_time(s@, fmt@) == Err::<(u32, u32), Seq<char>>(e@),
        },
{
    match chrono::NaiveTime::parse_from_str(s, fmt) {
        Ok(t) => Ok((t.num_seconds_from_midnight(), t.nanosecond())),
        Err(e) => Err(e.to_string()),
    }
}

/// Name for the text that `{:?}` gives for a string: the string in double
/// quotes with quotes, backslashes and control characters escaped.
pub uninterp spec fn debug_quote(s: Seq<char>) -> Seq<char>;

/// Formats `s` with `{:?}` (`<str as core::fmt::Debug>::fmt`). Trusted: the
/// result is the named result `debug_quote` of `s`.
#[verifier::external_body]
fn debug_quoted(s: &str) -> (r: String)
    ensures
        r@ == debug_quote(s@),
{
    format!("{:?}", s)
}

/// The message of a refused daily cutoff text, given chrono's error text.
pub open spec fn cutoff_error_view(s: Seq<char>, e: Seq<char>) -> Seq<char> {
    "invalid daily_cutoff_jst "@ + debug_quote(s) + ": "@ + e
}

/// The daily cutoff from what parsing `s` gave: the parsed time, or a
/// configuration error that quotes `s` and chrono's error.
pub fn cutoff_from_parsed(s: &str, parsed: Result<(u32, u32), String>) -> (r: Result<TimeOfDay, BotError>)
    ensures
        match parsed {
            Ok(v) => r == Ok::<TimeOfDay, BotError>(TimeOfDay { secs: v.0, nanos: v.1 }),
            Err(e) => r matches Err(BotError::Config(ConfigError::Message(m))) && m@ == cutoff_error_view(s@, e@),
        },
{
    match parsed {
        Ok((secs, nanos)) => Ok(TimeOfDay { secs, nanos }),
        Err(e) => {
            let mut m = String::new();
            push_str(&mut m, "invalid daily_cutoff_jst ");
            let q = debug_quoted(s);
            push_str(&mut m, q.as_str());
            push_str(&mut m, ": ");
            push_str(&mut m, e.as_str());
            Err(BotError::Config(ConfigError::Message(m)))
        },
    }
}

/// Parses the daily cutoff, "HH:MM", with chrono's `%H:%M` format; a text
/// chrono refuses gives a configuration error that quotes it.
pub fn parse_cutoff_hh_mm(s: &str) -> (r: Result<TimeOfDay, BotError>)
    ensures
        match chrono_parse_time(s@, "%H:%M"@) {
            Ok(v) => r == Ok::<TimeOfDay, BotError>(TimeOfDay { secs: v.0, nanos: v.1 }),
            Err(e) => r matches Err(BotError::Config(ConfigError::Message(m))) && m@ == cutoff_error_view(s@, e),
        },
        r matches Ok(t) ==> t.secs < 86_400,
{
    let parsed = naive_time_parse(s, "%H:%M");
    cutoff_from_parsed(s, parsed)
}

/// The cutoff on the local calendar day of `start`.
pub open spec fn same_day_cutoff(start: OffsetDateTime, cutoff: TimeOfDay) -> OffsetDateTime {
    let local = start.timestamp + start.offset_secs;
    let day_start = local - (local % (SECS_PER_DAY as int));
    OffsetDateTime {
        timestamp: (day_start + cutoff.secs - start.offset_secs) as i64,
        nanos: cutoff.nanos,
        offset_secs: start.offset_secs,
    }
}

/// The first cutoff strictly after `start`: today's when it is still ahead,
/// otherwise tomorrow's.
pub open spec fn next_cutoff_view(start: OffsetDateTime, cutoff: TimeOfDay) -> OffsetDateTime {
    let c = same_day_cutoff(start, cutoff);
    if before(start, c) {
        c
    } else {
        OffsetDateTime { timestamp: (c.timestamp + SECS_PER_DAY) as i64, ..c }
    }
}

/// Instants that chrono can hold (it spans about 262 000 years either side).
pub open spec fn representable(t: OffsetDateTime) -> bool {
    &&& -0x4_0000_0000_0000 <= t.timestamp <= 0x4_0000_0000_0000
    &&& -86_400 < t.offset_secs < 86_400
}

/// The first daily cutoff after `start`, in the offset of `start`: the
/// cutoff time on the local calendar day of `start` if that is later than
/// `start`, else the same time one day later.
pub fn next_cutoff_after(start: OffsetDateTime, cutoff: TimeOfDay) -> (r: OffsetDateTime)
    requires
        representable(start),
        cutoff.secs < 86_400,
    ensures
        r == next_cutoff_view(start, cutoff),
        before(start, r),
        r.timestamp <= start.timestamp + SECS_PER_DAY,
        (r.timestamp + r.offset_secs) % (SECS_PER_DAY as int) == cutoff.secs,
        r.nanos == cutoff.nanos,
        r.offset_secs == start.offset_secs,
{
    let local: i64 = start.timestamp + start.offset_secs as i64;
    let rem: i64 = local % SECS_PER_DAY;
    let rem: i64 = if rem < 0 { rem + SECS_PER_DAY } else { rem };
    let day_start: i64 = local - rem;
    proof {
        assert(rem == (local as int) % (SECS_PER_DAY as int));
    }
    let candidate = OffsetDateTime {
        timestamp: day_start + cutoff.secs as i64 - start.offset_secs as i64,
        nanos: cutoff.nanos,
        offset_secs: start.offset_secs,
    };
    proof {
        assert(candidate == same_day_cutoff(start, cutoff));
        assert((day_start + cutoff.secs) % (SECS_PER_DAY as int) == cutoff.secs) by (nonlinear_arith)
            requires
                day_start == local - (local as int) % (SECS_PER_DAY as int),
                0 <= cutoff.secs < 86_400,
                SECS_PER_DAY == 86_400,
        ;
    }
    if start.timestamp < candidate.timestamp || (start.timestamp == candidate.timestamp && start.nanos < candidate.nanos) {
        candidate
    } else {
        let r = OffsetDateTime { timestamp: candidate.timestamp + SECS_PER_DAY, ..candidate };
        proof {
            assert((day_start + cutoff.secs + SECS_PER_DAY) % (SECS_PER_DAY as int) == cutoff.secs) by (nonlinear_arith)
                requires
                    (day_start + cutoff.secs) % (SECS_PER_DAY as int) == cutoff.secs,
                    SECS_PER_DAY == 86_400,
            ;
        }
        r
    }
}

} // verus!
