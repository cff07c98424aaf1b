//! Instants in UTC, held as a Unix timestamp and its sub-second nanoseconds,
//! and the few calendar computations the application needs, which chrono
//! performs.
use crate::json::opt_view;
use crate::text::{chars_of, extend_chars, string_of};
use vstd::prelude::*;

verus! {

/// An instant in UTC: seconds since the Unix epoch, and nanoseconds within
/// that second (at least one second's worth during a leap second).
#[derive(Debug, Clone, Copy, PartialEq, Eq)]
pub struct UtcTime {
    pub secs: i64,
    pub nanos: u32,
}

/// `a` is strictly later than `b`: instants are ordered by their second,
/// then by their nanoseconds.
pub open spec fn is_after(a: UtcTime, b: UtcTime) -> bool {
    a.secs > b.secs || (a.secs == b.secs && a.nanos > b.nanos)
}

/// Whether `a` is strictly later than `b`.
pub fn after(a: &UtcTime, b: &UtcTime) -> (r: bool)
    ensures
        r == is_after(*a, *b),
{
    a.secs > b.secs || (a.secs == b.secs && a.nanos > b.nanos)
}

/// What `chrono::DateTime::parse_from_rfc3339` yields for a text, as a UTC
/// timestamp and its sub-second nanoseconds.
pub uninterp spec fn rfc3339_instant(text: Seq<char>) -> Option<(i64, u32)>;

/// Parses an RFC 3339 date-time with `chrono::DateTime::parse_from_rfc3339`
/// and converts it to UTC. The contract says that the result is the parse's
/// result for this text and nothing else: what chrono accepts is not stated.
#[verifier::external_body]
fn rfc3339_timestamp(text: &str) -> (r: Option<(i64, u32)>)
    ensures
        r == rfc3339_instant(text@),
{
    chrono::DateTime::parse_from_rfc3339(text).ok().map(|d| (d.timestamp(), d.timestamp_subsec_nanos()))
}

/// The instant an RFC 3339 text names, if chrono can parse it.
pub fn parse_rfc3339(text: &str) -> (r: Option<UtcTime>)
    ensures
        match rfc3339_instant(text@) {
            Some((s, n)) => r == Some(UtcTime { secs: s, nanos: n }),
            None => r is None,
        },
{
    match rfc3339_timestamp(text) {
        Some((secs, nanos)) => Some(UtcTime { secs, nanos }),
        None => None,
    }
}

/// An instant from the first second of year 1 to the last of year 9999,
/// outside a leap second: chrono's calendar holds every such instant.
pub open spec fn in_common_calendar(secs: i64, nanos: u32) -> bool {
    -62135596800 <= secs <= 253402300799 && nanos < 1_000_000_000
}

/// What formatting the instant with `"%Y%m%d_%H%M%S_%3f"` gives in chrono:
/// `None` when `chrono::DateTime::from_timestamp` refuses the timestamp.
pub uninterp spec fn compact_stamp_of(secs: i64, nanos: u32) -> Option<Seq<char>>;

/// Formats the instant as `YYYYmmdd_HHMMSS_mmm` with chrono
/// (`DateTime::from_timestamp`, then `format("%Y%m%d_%H%M%S_%3f")`). The
/// contract names the result of these calls on these arguments, and says
/// that `from_timestamp` accepts every instant of the common calendar (its
/// day count and second of the day are in range, and its nanoseconds are
/// under one second); it states nothing of the digits.
#[verifier::external_body]
fn compact_stamp(secs: i64, nanos: u32) -> (r: Option<String>)
    ensures
        opt_view(r) == compact_stamp_of(secs, nanos),
        in_common_calendar(secs, nanos) ==> r is Some,
{
    chrono::DateTime::from_timestamp(secs, nanos).map(|d| d.format("%Y%m%d_%H%M%S_%3f").to_string())
}

/// The name of the output file of an execution: its id, `_`, the compact
/// stamp of the time, and `.jsonl`.
pub open spec fn output_file_name(execution_id: Seq<char>, stamp: Seq<char>) -> Seq<char> {
    execution_id + "_"@ + stamp + ".jsonl"@
}

/// The output file name for `execution_id` at `timestamp`; `None` only for
/// an instant outside chrono's calendar.
pub fn generate_output_file_name(execution_id: &str, timestamp: &UtcTime) -> (r: Option<String>)
    ensures
        match compact_stamp_of(timestamp.secs, timestamp.nanos) {
            Some(stamp) => r is Some && r->0@ == output_file_name(execution_id@, stamp),
            None => r is None,
        },
        in_common_calendar(timestamp.secs, timestamp.nanos) ==> r is Some,
{
    match compact_stamp(timestamp.secs, timestamp.nanos) {
        Some(stamp) => {
            let mut v = chars_of(execution_id);
            extend_chars(&mut v, chars_of("_").as_slice());
            extend_chars(&mut v, chars_of(stamp.as_str()).as_slice());
            extend_chars(&mut v, chars_of(".jsonl").as_slice());
            Some(string_of(v.as_slice()))
        },
        None => None,
    }
}

/// What `(later - earlier).to_std()` gives in chrono for two timestamps, as
/// whole seconds and nanoseconds; `None` when either timestamp is outside
/// chrono's calendar or the difference is negative.
pub uninterp spec fn chrono_delay_of(
    later_secs: i64,
    later_nanos: u32,
    earlier_secs: i64,
    earlier_nanos: u32,
) -> Option<(u64, u32)>;

/// The exact time from the instant (`earlier_secs`, `earlier_nanos`) to
/// the later instant (`later_secs`, `later_nanos`), as whole seconds and
/// nanoseconds under one second.
pub open spec fn exact_delay(
    later_secs: i64,
    later_nanos: u32,
    earlier_secs: i64,
    earlier_nanos: u32,
    d: (u64, u32),
) -> bool {
    d.1 < 1_000_000_000 && d.0 * 1_000_000_000 + d.1 == (later_secs - earlier_secs)
        * 1_000_000_000 + later_nanos - earlier_nanos
}

/// For two instants of the common calendar, the later not before the
/// earlier, `r` is their exact difference.
pub open spec fn delay_exact_in_calendar(
    later_secs: i64,
    later_nanos: u32,
    earlier_secs: i64,
    earlier_nanos: u32,
    r: Option<(u64, u32)>,
) -> bool {
    in_common_calendar(later_secs, later_nanos) && in_common_calendar(earlier_secs, earlier_nanos)
        && !is_after(
        UtcTime { secs: earlier_secs, nanos: earlier_nanos },
        UtcTime { secs: later_secs, nanos: later_nanos },
    ) ==> r is Some && exact_delay(later_secs, later_nanos, earlier_secs, earlier_nanos, r->0)
}

/// The time from `earlier` to `later`, computed by chrono
/// (`DateTime::from_timestamp` for both, subtraction, `TimeDelta::to_std`).
/// The contract names the result of these calls on these arguments, and
/// says that for two instants of the common calendar, the later not before
/// the earlier, the result is their exact difference: both timestamps are
/// accepted, their difference counts no leap second, and `to_std` accepts a
/// difference that is not negative.
#[verifier::external_body]
fn chrono_delay(later_secs: i64, later_nanos: u32, earlier_secs: i64, earlier_nanos: u32) -> (r:
    Option<(u64, u32)>)
    ensures
        r == chrono_delay_of(later_secs, later_nanos, earlier_secs, earlier_nanos),
        delay_exact_in_calendar(later_secs, later_nanos, earlier_secs, earlier_nanos, r),
{
    chrono::DateTime::from_timestamp(later_secs, later_nanos)
        .zip(chrono::DateTime::from_timestamp(earlier_secs, earlier_nanos))
        .and_then(|(a, b)| (a - b).to_std().ok())
        .map(|d| (d.as_secs(), d.subsec_nanos()))
}

/// How long to wait from `now` until `run_at`: `None` when `run_at` is not
/// in the future; otherwise chrono's difference, or zero where chrono cannot
/// express it.
pub open spec fn delay_until_spec(run_at: UtcTime, now: UtcTime) -> Option<(u64, u32)> {
    if !is_after(run_at, now) {
        None
    } else {
        match chrono_delay_of(run_at.secs, run_at.nanos, now.secs, now.nanos) {
            Some(d) => Some(d),
            None => Some((0u64, 0u32)),
        }
    }
}

/// How long to wait from `now` until `run_at` (seconds, nanoseconds), or
/// `None` when that instant is not in the future.
pub fn delay_until(run_at: &UtcTime, now: &UtcTime) -> (r: Option<(u64, u32)>)
    ensures
        r == delay_until_spec(*run_at, *now),
        is_after(*run_at, *now) ==> delay_exact_in_calendar(
            run_at.secs,
            run_at.nanos,
            now.secs,
            now.nanos,
            r,
        ),
{
    if !after(run_at, now) {
        return None;
    }
    match chrono_delay(run_at.secs, run_at.nanos, now.secs, now.nanos) {
        Some(d) => Some(d),
        None => Some((0, 0)),
    }
}

} // verus!
