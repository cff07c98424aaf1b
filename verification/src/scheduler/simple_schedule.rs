//! Simple schedules: JSON schedule definitions turned into cron expressions.
//!
//! - interval: `{"type": "interval", "value": 5, "unit": "minutes"}` gives `"*/5 * * * *"`
//! - daily: `{"type": "daily", "time": "09:30"}` gives `"30 9 * * *"`
//! - weekly: `{"type": "weekly", "day": "monday", "time": "09:30"}` gives `"30 9 * * 1"`
use crate::json::{
    json_member_str, json_member_str_of, json_member_u64, json_member_u64_of, json_syntax_check,
    json_syntax_error, opt_view,
};
use crate::text::{
    ascii_lower, chars_eq_str, chars_of, chars_of_string, decimal, extend_chars, parse_u32, parse_u32_chars,
    split_char, split_char_chars, str_then_chars, string_of, u64_decimal, views,
};
use vstd::prelude::*;

verus! {

/// Error type for schedule parsing.
#[derive(Debug, Clone, PartialEq, Eq)]
pub enum ScheduleError {
    InvalidJson(String),
    InvalidScheduleType(String),
    InvalidIntervalValue(u32),
    InvalidIntervalUnit(String),
    InvalidTimeFormat(String),
    InvalidDayOfWeek(String),
    MissingField(String),
}

/// Why a schedule definition is refused, as plain values.
pub enum ScheduleFailure {
    InvalidJson(Seq<char>),
    InvalidScheduleType(Seq<char>),
    InvalidIntervalValue(u32),
    InvalidIntervalUnit(Seq<char>),
    InvalidTimeFormat(Seq<char>),
    InvalidDayOfWeek(Seq<char>),
    MissingField(Seq<char>),
}

impl ScheduleError {
    /// This error reports `f`.
    pub open spec fn reports(&self, f: ScheduleFailure) -> bool {
        match f {
            ScheduleFailure::InvalidJson(m) => *self matches ScheduleError::InvalidJson(s) && s@
                == m,
            ScheduleFailure::InvalidScheduleType(m) => *self matches ScheduleError::InvalidScheduleType(
                s,
            ) && s@ == m,
            ScheduleFailure::InvalidIntervalValue(v) => *self matches ScheduleError::InvalidIntervalValue(
                w,
            ) && w == v,
            ScheduleFailure::InvalidIntervalUnit(m) => *self matches ScheduleError::InvalidIntervalUnit(
                s,
            ) && s@ == m,
            ScheduleFailure::InvalidTimeFormat(m) => *self matches ScheduleError::InvalidTimeFormat(
                s,
            ) && s@ == m,
            ScheduleFailure::InvalidDayOfWeek(m) => *self matches ScheduleError::InvalidDayOfWeek(
                s,
            ) && s@ == m,
            ScheduleFailure::MissingField(m) => *self matches ScheduleError::MissingField(s) && s@
                == m,
        }
    }

    /// The text this error displays.
    pub open spec fn message(&self) -> Seq<char> {
        match self {
            ScheduleError::InvalidJson(m) => "Invalid JSON: "@ + m@,
            ScheduleError::InvalidScheduleType(t) => "Invalid schedule type: "@ + t@,
            ScheduleError::InvalidIntervalValue(v) => "Invalid interval value: "@ + decimal(
                *v as nat,
            ) + " (must be > 0)"@,
            ScheduleError::InvalidIntervalUnit(u) => "Invalid interval unit: "@ + u@,
            ScheduleError::InvalidTimeFormat(t) => "Invalid time format: "@ + t@
                + " (expected HH:MM)"@,
            ScheduleError::InvalidDayOfWeek(d) => "Invalid day of week: "@ + d@,
            ScheduleError::MissingField(f) => "Missing required field: "@ + f@,
        }
    }

    /// The text this error displays.
    pub fn to_string(&self) -> (r: String)
        ensures
            r@ == self.message(),
    {
        let v = match self {
            ScheduleError::InvalidJson(m) => str_then_chars(
                "Invalid JSON: ",
                chars_of_string(m).as_slice(),
            ),
            ScheduleError::InvalidScheduleType(t) => str_then_chars(
                "Invalid schedule type: ",
                chars_of_string(t).as_slice(),
            ),
            ScheduleError::InvalidIntervalValue(v) => {
                let mut r = str_then_chars(
                    "Invalid interval value: ",
                    u64_decimal(*v as u64).as_slice(),
                );
                extend_chars(&mut r, chars_of(" (must be > 0)").as_slice());
                r
            },
            ScheduleError::InvalidIntervalUnit(u) => str_then_chars(
                "Invalid interval unit: ",
                chars_of_string(u).as_slice(),
            ),
            ScheduleError::InvalidTimeFormat(t) => {
                let mut r = str_then_chars(
                    "Invalid time format: ",
                    chars_of_string(t).as_slice(),
                );
                extend_chars(&mut r, chars_of(" (expected HH:MM)").as_slice());
                r
            },
            ScheduleError::InvalidDayOfWeek(d) => str_then_chars(
                "Invalid day of week: ",
                chars_of_string(d).as_slice(),
            ),
            ScheduleError::MissingField(f) => str_then_chars(
                "Missing required field: ",
                chars_of_string(f).as_slice(),
            ),
        };
        string_of(v.as_slice())
    }
}

/// What `str::to_lowercase` returns on `s`.
pub uninterp spec fn lowercase(s: Seq<char>) -> Seq<char>;

/// Whether every character of `s` is ASCII.
pub open spec fn all_ascii(s: Seq<char>) -> bool {
    forall|i: int| 0 <= i < s.len() ==> (s[i] as u32) < 128
}

/// A string lowercased: an ASCII string has its ASCII letters lowered;
/// another is what `str::to_lowercase` returns on it.
pub open spec fn lowered(s: Seq<char>) -> Seq<char> {
    if all_ascii(s) {
        s.map_values(|c: char| ascii_lower(c))
    } else {
        lowercase(s)
    }
}

/// Calls `str::to_lowercase`. Claimed: the result is `lowercase(s)`, and
/// on an ASCII string that lowers each ASCII letter and keeps every other
/// character (ASCII letters are the only ASCII characters with a Unicode
/// lowercase mapping, each to one character).
#[verifier::external_body]
fn to_lowercase_string(s: &str) -> (r: String)
    ensures
        r@ == lowercase(s@),
        all_ascii(s@) ==> r@ == s@.map_values(|c: char| ascii_lower(c)),
{
    s.to_lowercase()
}

/// `"HH:MM"` read as (hour, minute): exactly one `:`, each side a `u32`, the
/// hour at most 23 and the minute at most 59.
pub open spec fn time_of_day(time: Seq<char>) -> Option<(u32, u32)> {
    let parts = split_char(time, ':');
    if parts.len() != 2 {
        None
    } else {
        match (parse_u32(parts[0]), parse_u32(parts[1])) {
            (Some(h), Some(m)) => if h <= 23 && m <= 59 {
                Some((h, m))
            } else {
                None
            },
            _ => None,
        }
    }
}

/// The cron day number of a lowercased day name (0 = Sunday).
pub open spec fn day_number(lower: Seq<char>) -> Option<u32> {
    if lower == "sunday"@ || lower == "sun"@ {
        Some(0)
    } else if lower == "monday"@ || lower == "mon"@ {
        Some(1)
    } else if lower == "tuesday"@ || lower == "tue"@ {
        Some(2)
    } else if lower == "wednesday"@ || lower == "wed"@ {
        Some(3)
    } else if lower == "thursday"@ || lower == "thu"@ {
        Some(4)
    } else if lower == "friday"@ || lower == "fri"@ {
        Some(5)
    } else if lower == "saturday"@ || lower == "sat"@ {
        Some(6)
    } else {
        None
    }
}

/// The cron expression of an interval schedule.
pub open spec fn interval_schedule(json: Seq<char>) -> Result<Seq<char>, ScheduleFailure> {
    match json_member_u64(json, "value"@) {
        None => Err(ScheduleFailure::MissingField("value"@)),
        Some(v) => if v > u32::MAX {
            Err(ScheduleFailure::InvalidIntervalValue((v % 0x1_0000_0000) as u32))
        } else if v == 0 {
            Err(ScheduleFailure::InvalidIntervalValue(0))
        } else {
            match json_member_str(json, "unit"@) {
                None => Err(ScheduleFailure::MissingField("unit"@)),
                Some(u) => if u == "minutes"@ {
                    Ok("*/"@ + decimal(v as nat) + " * * * *"@)
                } else if u == "hours"@ {
                    Ok("0 */"@ + decimal(v as nat) + " * * *"@)
                } else if u == "days"@ {
                    Ok("0 0 */"@ + decimal(v as nat) + " * *"@)
                } else {
                    Err(ScheduleFailure::InvalidIntervalUnit(u))
                },
            }
        },
    }
}

/// The cron expression of a daily schedule.
pub open spec fn daily_schedule(json: Seq<char>) -> Result<Seq<char>, ScheduleFailure> {
    match json_member_str(json, "time"@) {
        None => Err(ScheduleFailure::MissingField("time"@)),
        Some(t) => match time_of_day(t) {
            None => Err(ScheduleFailure::InvalidTimeFormat(t)),
            Some((h, m)) => Ok(decimal(m as nat) + " "@ + decimal(h as nat) + " * * *"@),
        },
    }
}

/// The cron expression of a weekly schedule.
pub open spec fn weekly_schedule(json: Seq<char>) -> Result<Seq<char>, ScheduleFailure> {
    match json_member_str(json, "day"@) {
        None => Err(ScheduleFailure::MissingField("day"@)),
        Some(d) => match json_member_str(json, "time"@) {
            None => Err(ScheduleFailure::MissingField("time"@)),
            Some(t) => match time_of_day(t) {
                None => Err(ScheduleFailure::InvalidTimeFormat(t)),
                Some((h, m)) => match day_number(lowered(d)) {
                    None => Err(ScheduleFailure::InvalidDayOfWeek(lowered(d))),
                    Some(n) => Ok(
                        decimal(m as nat) + " "@ + decimal(h as nat) + " * * "@ + decimal(
                            n as nat,
                        ),
                    ),
                },
            },
        },
    }
}

/// The cron expression a simple schedule definition stands for, or why it is
/// refused.
pub open spec fn simple_schedule(json: Seq<char>) -> Result<Seq<char>, ScheduleFailure> {
    match json_syntax_error(json) {
        Some(m) => Err(ScheduleFailure::InvalidJson(m)),
        None => match json_member_str(json, "type"@) {
            None => Err(ScheduleFailure::MissingField("type"@)),
            Some(t) => if t == "interval"@ {
                interval_schedule(json)
            } else if t == "daily"@ {
                daily_schedule(json)
            } else if t == "weekly"@ {
                weekly_schedule(json)
            } else {
                Err(ScheduleFailure::InvalidScheduleType(t))
            },
        },
    }
}

/// `r` stands for the verdict `spec`.
pub open spec fn matches_verdict(
    r: Result<String, ScheduleError>,
    spec: Result<Seq<char>, ScheduleFailure>,
) -> bool {
    match spec {
        Ok(expr) => r matches Ok(s) && s@ == expr,
        Err(f) => r matches Err(e) && e.reports(f),
    }
}

fn missing(field: &str) -> (e: ScheduleError)
    ensures
        e.reports(ScheduleFailure::MissingField(field@)),
{
    ScheduleError::MissingField(string_of(chars_of(field).as_slice()))
}

/// Parses a simple schedule definition and converts it to a cron expression.
pub fn parse_simple_schedule(json: &str) -> (r: Result<String, ScheduleError>)
    ensures
        matches_verdict(r, simple_schedule(json@)),
{
    if let Some(m) = json_syntax_check(json) {
        return Err(ScheduleError::InvalidJson(m));
    }
    let schedule_type = match json_member_str_of(json, "type") {
        Some(t) => t,
        None => return Err(missing("type")),
    };
    let t = chars_of_string(&schedule_type);
    if chars_eq_str(t.as_slice(), "interval") {
        parse_interval(json)
    } else if chars_eq_str(t.as_slice(), "daily") {
        parse_daily(json)
    } else if chars_eq_str(t.as_slice(), "weekly") {
        parse_weekly(json)
    } else {
        Err(ScheduleError::InvalidScheduleType(schedule_type))
    }
}

/// Parses an interval schedule: `{"type": "interval", "value": 5, "unit": "minutes"}`.
fn parse_interval(json: &str) -> (r: Result<String, ScheduleError>)
    ensures
        matches_verdict(r, interval_schedule(json@)),
{
    let value = match json_member_u64_of(json, "value") {
        Some(v) => v,
        None => return Err(missing("value")),
    };
    if value > 4294967295u64 {
        let truncated = (value % 0x1_0000_0000u64) as u32;
        return Err(ScheduleError::InvalidIntervalValue(truncated));
    }
    if value == 0 {
        return Err(ScheduleError::InvalidIntervalValue(0));
    }
    let unit = match json_member_str_of(json, "unit") {
        Some(u) => u,
        None => return Err(missing("unit")),
    };
    let u = chars_of_string(&unit);
    let digits = u64_decimal(value);
    let v = if chars_eq_str(u.as_slice(), "minutes") {
        let mut v = str_then_chars("*/", digits.as_slice());
        extend_chars(&mut v, chars_of(" * * * *").as_slice());
        v
    } else if chars_eq_str(u.as_slice(), "hours") {
        let mut v = str_then_chars("0 */", digits.as_slice());
        extend_chars(&mut v, chars_of(" * * *").as_slice());
        v
    } else if chars_eq_str(u.as_slice(), "days") {
        let mut v = str_then_chars("0 0 */", digits.as_slice());
        extend_chars(&mut v, chars_of(" * *").as_slice());
        v
    } else {
        return Err(ScheduleError::InvalidIntervalUnit(unit));
    };
    Ok(string_of(v.as_slice()))
}

/// `minute hour * * *` followed by `tail`.
fn time_expression(hour: u32, minute: u32, tail: &[char]) -> (r: Vec<char>)
    ensures
        r@ == decimal(minute as nat) + " "@ + decimal(hour as nat) + tail@,
{
    let mut v = u64_decimal(minute as u64);
    extend_chars(&mut v, chars_of(" ").as_slice());
    extend_chars(&mut v, u64_decimal(hour as u64).as_slice());
    extend_chars(&mut v, tail);
    v
}

/// Parses a daily schedule: `{"type": "daily", "time": "09:30"}`.
fn parse_daily(json: &str) -> (r: Result<String, ScheduleError>)
    ensures
        matches_verdict(r, daily_schedule(json@)),
{
    let time = match json_member_str_of(json, "time") {
        Some(t) => t,
        None => return Err(missing("time")),
    };
    let (hour, minute) = match parse_time(&time) {
        Ok(p) => p,
        Err(e) => return Err(e),
    };
    let tail = chars_of(" * * *");
    Ok(string_of(time_expression(hour, minute, tail.as_slice()).as_slice()))
}

/// Parses a weekly schedule: `{"type": "weekly", "day": "monday", "time": "09:30"}`.
fn parse_weekly(json: &str) -> (r: Result<String, ScheduleError>)
    ensures
        matches_verdict(r, weekly_schedule(json@)),
{
    let day = match json_member_str_of(json, "day") {
        Some(d) => d,
        None => return Err(missing("day")),
    };
    let time = match json_member_str_of(json, "time") {
        Some(t) => t,
        None => return Err(missing("time")),
    };
    let (hour, minute) = match parse_time(&time) {
        Ok(p) => p,
        Err(e) => return Err(e),
    };
    let day_num = match parse_day_of_week(&day) {
        Ok(n) => n,
        Err(e) => return Err(e),
    };
    let mut tail = chars_of(" * * ");
    extend_chars(&mut tail, u64_decimal(day_num as u64).as_slice());
    let v = time_expression(hour, minute, tail.as_slice());
    assert(v@ =~= decimal(minute as nat) + " "@ + decimal(hour as nat) + " * * "@ + decimal(
        day_num as nat,
    ));
    Ok(string_of(v.as_slice()))
}

/// Parses a time string `"HH:MM"` into (hour, minute).
pub fn parse_time(time: &String) -> (r: Result<(u32, u32), ScheduleError>)
    ensures
        match time_of_day(time@) {
            Some(p) => r == Ok::<(u32, u32), ScheduleError>(p),
            None => r matches Err(e) && e.reports(ScheduleFailure::InvalidTimeFormat(time@)),
        },
{
    let t = chars_of_string(time);
    let parts = split_char_chars(t.as_slice(), ':');
    if parts.len() != 2 {
        return Err(ScheduleError::InvalidTimeFormat(time.clone()));
    }
    assert(parts@[0]@ == split_char(time@, ':')[0]);
    assert(parts@[1]@ == split_char(time@, ':')[1]);
    let hour = match parse_u32_chars(parts[0].as_slice()) {
        Some(h) => h,
        None => return Err(ScheduleError::InvalidTimeFormat(time.clone())),
    };
    let minute = match parse_u32_chars(parts[1].as_slice()) {
        Some(m) => m,
        None => return Err(ScheduleError::InvalidTimeFormat(time.clone())),
    };
    if hour > 23 || minute > 59 {
        return Err(ScheduleError::InvalidTimeFormat(time.clone()));
    }
    Ok((hour, minute))
}

/// Parses a day of week name to its cron number (0 = Sunday, 1 = Monday, ...).
pub fn parse_day_of_week(day: &String) -> (r: Result<u32, ScheduleError>)
    ensures
        match day_number(lowered(day@)) {
            Some(n) => r == Ok::<u32, ScheduleError>(n),
            None => r matches Err(e) && e.reports(
                ScheduleFailure::InvalidDayOfWeek(lowered(day@)),
            ),
        },
{
    let lower = to_lowercase_string(day.as_str());
    let d = chars_of_string(&lower);
    let s = d.as_slice();
    if chars_eq_str(s, "sunday") || chars_eq_str(s, "sun") {
        Ok(0)
    } else if chars_eq_str(s, "monday") || chars_eq_str(s, "mon") {
        Ok(1)
    } else if chars_eq_str(s, "tuesday") || chars_eq_str(s, "tue") {
        Ok(2)
    } else if chars_eq_str(s, "wednesday") || chars_eq_str(s, "wed") {
        Ok(3)
    } else if chars_eq_str(s, "thursday") || chars_eq_str(s, "thu") {
        Ok(4)
    } else if chars_eq_str(s, "friday") || chars_eq_str(s, "fri") {
        Ok(5)
    } else if chars_eq_str(s, "saturday") || chars_eq_str(s, "sat") {
        Ok(6)
    } else {
        Err(ScheduleError::InvalidDayOfWeek(lower))
    }
}


/// The days of the week in cron order, Sunday first.
pub open spec fn week_day_names() -> Seq<Seq<char>> {
    seq!["sunday"@, "monday"@, "tuesday"@, "wednesday"@, "thursday"@, "friday"@, "saturday"@]
}

/// A day is named by its full lowercase English name or by that name's
/// first three letters, and both give its place in the week (Sunday is 0,
/// Saturday 6); no other text names a day.
pub proof fn law_day_names_in_week_order(s: Seq<char>, n: int)
    ensures
        0 <= n < 7 ==> day_number(week_day_names()[n]) == Some(n as u32) && day_number(
            week_day_names()[n].take(3),
        ) == Some(n as u32),
        day_number(s) is Some ==> day_number(s)->0 < 7 && (s == week_day_names()[day_number(
            s,
        )->0 as int] || s == week_day_names()[day_number(s)->0 as int].take(3)),
{
    reveal_strlit("sunday");
    reveal_strlit("sun");
    reveal_strlit("monday");
    reveal_strlit("mon");
    reveal_strlit("tuesday");
    reveal_strlit("tue");
    reveal_strlit("wednesday");
    reveal_strlit("wed");
    reveal_strlit("thursday");
    reveal_strlit("thu");
    reveal_strlit("friday");
    reveal_strlit("fri");
    reveal_strlit("saturday");
    reveal_strlit("sat");
    assert("sunday"@.len() == 6 && "sunday"@[0] == 's' && "sunday"@[1] == 'u');
    assert("sun"@.len() == 3 && "sun"@[0] == 's' && "sun"@[1] == 'u');
    assert("monday"@.len() == 6 && "monday"@[0] == 'm' && "monday"@[1] == 'o');
    assert("mon"@.len() == 3 && "mon"@[0] == 'm' && "mon"@[1] == 'o');
    assert("tuesday"@.len() == 7 && "tuesday"@[0] == 't' && "tuesday"@[1] == 'u');
    assert("tue"@.len() == 3 && "tue"@[0] == 't' && "tue"@[1] == 'u');
    assert("wednesday"@.len() == 9 && "wednesday"@[0] == 'w' && "wednesday"@[1] == 'e');
    assert("wed"@.len() == 3 && "wed"@[0] == 'w' && "wed"@[1] == 'e');
    assert("thursday"@.len() == 8 && "thursday"@[0] == 't' && "thursday"@[1] == 'h');
    assert("thu"@.len() == 3 && "thu"@[0] == 't' && "thu"@[1] == 'h');
    assert("friday"@.len() == 6 && "friday"@[0] == 'f' && "friday"@[1] == 'r');
    assert("fri"@.len() == 3 && "fri"@[0] == 'f' && "fri"@[1] == 'r');
    assert("saturday"@.len() == 8 && "saturday"@[0] == 's' && "saturday"@[1] == 'a');
    assert("sat"@.len() == 3 && "sat"@[0] == 's' && "sat"@[1] == 'a');
    let w = week_day_names();
    assert(w[0].take(3) =~= "sun"@);
    assert(w[1].take(3) =~= "mon"@);
    assert(w[2].take(3) =~= "tue"@);
    assert(w[3].take(3) =~= "wed"@);
    assert(w[4].take(3) =~= "thu"@);
    assert(w[5].take(3) =~= "fri"@);
    assert(w[6].take(3) =~= "sat"@);
    if 0 <= n < 7 {
        assert(day_number(w[n]) == Some(n as u32));
        assert(day_number(w[n].take(3)) == Some(n as u32));
    }
}

} // verus!
