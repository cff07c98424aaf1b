//! Reading the newline-delimited JSON events that `opencode run` prints:
//! which lines hold events, and the last error an event reported.
//!
//! Decoding a line into an event value is done by the caller with serde; the
//! functions here decide which lines are looked at, and in which order.
use crate::json::{json_nested_member_str, json_nested_member_str_of};
use crate::text::{chars_of, lines, lines_chars, string_of, trim, trim_chars, views};
use vstd::prelude::*;

verus! {

/// The text part of a `text` event.
#[derive(Debug, Clone, PartialEq, Eq)]
pub struct TextPart {
    pub part_type: String,
    pub text: String,
    pub time: Option<TimeInfo>,
    pub id: Option<String>,
    pub message_id: Option<String>,
    pub session_id: Option<String>,
}

/// The start and end time of an event part, in milliseconds.
#[derive(Debug, Clone, Copy, PartialEq, Eq)]
pub struct TimeInfo {
    pub start: u64,
    pub end: u64,
}

/// The trimmed lines of an output that are not blank, in order: the lines
/// that may hold an event.
pub open spec fn event_lines(ls: Seq<Seq<char>>) -> Seq<Seq<char>>
    decreases ls.len(),
{
    if ls.len() == 0 {
        seq![]
    } else {
        let rest = event_lines(ls.drop_last());
        let t = trim(ls.last());
        if t.len() == 0 {
            rest
        } else {
            rest.push(t)
        }
    }
}

/// The lines of `stdout` that may hold an event, trimmed, in order.
pub fn ndjson_lines(stdout: &str) -> (r: Vec<String>)
    ensures
        r@.map_values(|s: String| s@) == event_lines(lines(stdout@)),
{
    let text = chars_of(stdout);
    let ls = lines_chars(text.as_slice());
    let ghost lv = views(ls@);
    let mut r: Vec<String> = Vec::new();
    let mut i: usize = 0;
    while i < ls.len()
        invariant
            i <= ls@.len(),
            lv == views(ls@),
            r@.map_values(|s: String| s@) == event_lines(lv.subrange(0, i as int)),
        decreases ls@.len() - i,
    {
        let ghost pre = lv.subrange(0, i + 1);
        assert(pre.drop_last() == lv.subrange(0, i as int));
        assert(pre.last() == ls@[i as int]@);
        let t = trim_chars(ls[i].as_slice());
        if t.len() > 0 {
            let ghost before = r@;
            r.push(string_of(t.as_slice()));
            assert(r@.map_values(|s: String| s@) == before.map_values(|s: String| s@).push(t@));
        }
        i = i + 1;
    }
    assert(lv.subrange(0, ls@.len() as int) == lv);
    r
}

/// The error text one (trimmed) line reports: the line is a JSON object whose
/// `part` has `reason` `"error"` and a non-empty string `text`.
pub open spec fn line_error(t: Seq<char>) -> Option<Seq<char>> {
    if json_nested_member_str(t, "part"@, "reason"@) == Some("error"@) {
        match json_nested_member_str(t, "part"@, "text"@) {
            Some(x) => if x.len() > 0 {
                Some(x)
            } else {
                None
            },
            None => None,
        }
    } else {
        None
    }
}

/// The error text of the last line among `ls` that reports one.
pub open spec fn last_error(ls: Seq<Seq<char>>) -> Option<Seq<char>>
    decreases ls.len(),
{
    if ls.len() == 0 {
        None
    } else {
        let t = trim(ls.last());
        let here = if t.len() == 0 {
            None
        } else {
            line_error(t)
        };
        match here {
            Some(x) => Some(x),
            None => last_error(ls.drop_last()),
        }
    }
}

fn line_error_of(t: &str) -> (r: Option<String>)
    ensures
        match line_error(t@) {
            Some(x) => r is Some && r->0@ == x,
            None => r is None,
        },
{
    let reason = match json_nested_member_str_of(t, "part", "reason") {
        Some(r) => r,
        None => return None,
    };
    let rv = chars_of(reason.as_str());
    if !crate::text::chars_eq_str(rv.as_slice(), "error") {
        return None;
    }
    match json_nested_member_str_of(t, "part", "text") {
        Some(x) => {
            let xv = chars_of(x.as_str());
            if xv.len() > 0 {
                Some(x)
            } else {
                None
            }
        },
        None => None,
    }
}

/// The text of the last event in `stdout` whose part ended with reason
/// `error`, if any.
pub fn extract_error_message(stdout: &str) -> (r: Option<String>)
    ensures
        match last_error(lines(stdout@)) {
            Some(x) => r is Some && r->0@ == x,
            None => r is None,
        },
{
    let text = chars_of(stdout);
    let ls = lines_chars(text.as_slice());
    let ghost lv = views(ls@);
    let mut last: Option<String> = None;
    let mut i: usize = 0;
    while i < ls.len()
        invariant
            i <= ls@.len(),
            lv == views(ls@),
            match last_error(lv.subrange(0, i as int)) {
                Some(x) => last is Some && last->0@ == x,
                None => last is None,
            },
        decreases ls@.len() - i,
    {
        let ghost pre = lv.subrange(0, i + 1);
        assert(pre.drop_last() == lv.subrange(0, i as int));
        assert(pre.last() == ls@[i as int]@);
        let t = trim_chars(ls[i].as_slice());
        if t.len() > 0 {
            let ts = string_of(t.as_slice());
            match line_error_of(ts.as_str()) {
                Some(x) => {
                    last = Some(x);
                },
                None => {},
            }
        }
        i = i + 1;
    }
    assert(lv.subrange(0, ls@.len() as int) == lv);
    last
}

} // verus!
