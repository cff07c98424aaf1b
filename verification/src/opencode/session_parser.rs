//! Finding the session id that the opencode CLI prints on a line of its
//! output, such as `Session: sess_abc123`.
use crate::text::{
    chars_of, has_prefix, lines, lines_chars, starts_with, string_of, trim, trim_chars, views,
};
use vstd::prelude::*;

verus! {

/// The characters after the first `sep` of `s`; empty when there is none.
pub open spec fn after_first(s: Seq<char>, sep: char) -> Seq<char>
    decreases s.len(),
{
    if s.len() == 0 {
        seq![]
    } else if s[0] == sep {
        s.drop_first()
    } else {
        after_first(s.drop_first(), sep)
    }
}

/// The characters after the first `sep` of `s`.
pub fn after_first_chars(s: &[char], sep: char) -> (r: Vec<char>)
    ensures
        r@ == after_first(s@, sep),
{
    let mut i: usize = 0;
    assert(s@.subrange(0, s@.len() as int) == s@);
    while i < s.len()
        invariant
            i <= s@.len(),
            after_first(s@, sep) == after_first(s@.subrange(i as int, s@.len() as int), sep),
        decreases s@.len() - i,
    {
        let ghost rest = s@.subrange(i as int, s@.len() as int);
        assert(rest.drop_first() == s@.subrange(i + 1, s@.len() as int));
        if s[i] == sep {
            let mut r: Vec<char> = Vec::new();
            let mut j: usize = i + 1;
            while j < s.len()
                invariant
                    i < j <= s@.len(),
                    r@ == s@.subrange(i + 1, j as int),
                decreases s@.len() - j,
            {
                r.push(s[j]);
                assert(r@ == s@.subrange(i + 1, j + 1));
                j = j + 1;
            }
            return r;
        }
        i = i + 1;
    }
    assert(s@.subrange(s@.len() as int, s@.len() as int).len() == 0);
    Vec::new()
}

/// The session labels a line may start with (after trimming): with
/// `accept_id_label`, `Session ID:` is accepted besides `Session:` and
/// `session:`.
pub open spec fn has_session_label(t: Seq<char>, accept_id_label: bool) -> bool {
    ||| (accept_id_label && has_prefix(t, "Session ID:"@))
    ||| has_prefix(t, "Session:"@)
    ||| has_prefix(t, "session:"@)
}

/// The session id a single output line carries: the line, trimmed, starts
/// with a session label, and what follows its first `:`, trimmed, is not
/// empty.
pub open spec fn line_session(line: Seq<char>, accept_id_label: bool) -> Option<Seq<char>> {
    let t = trim(line);
    if has_session_label(t, accept_id_label) {
        let v = trim(after_first(t, ':'));
        if v.len() > 0 {
            Some(v)
        } else {
            None
        }
    } else {
        None
    }
}

/// The session id of the first line among `ls` that carries one.
pub open spec fn first_session(ls: Seq<Seq<char>>, accept_id_label: bool) -> Option<Seq<char>>
    decreases ls.len(),
{
    if ls.len() == 0 {
        None
    } else {
        match line_session(ls[0], accept_id_label) {
            Some(v) => Some(v),
            None => first_session(ls.drop_first(), accept_id_label),
        }
    }
}

/// The session id of one line, if it carries one.
pub fn line_session_of(line: &[char], accept_id_label: bool) -> (r: Option<Vec<char>>)
    ensures
        match line_session(line@, accept_id_label) {
            Some(v) => r is Some && r->0@ == v,
            None => r is None,
        },
{
    let t = trim_chars(line);
    let labelled = (accept_id_label && starts_with(t.as_slice(), chars_of("Session ID:").as_slice()))
        || starts_with(t.as_slice(), chars_of("Session:").as_slice()) || starts_with(
        t.as_slice(),
        chars_of("session:").as_slice(),
    );
    if !labelled {
        return None;
    }
    let rest = after_first_chars(t.as_slice(), ':');
    let v = trim_chars(rest.as_slice());
    if v.len() > 0 {
        Some(v)
    } else {
        None
    }
}

/// The session id of the first line of `output` that carries one.
pub fn find_session(output: &str, accept_id_label: bool) -> (r: Option<String>)
    ensures
        match first_session(lines(output@), accept_id_label) {
            Some(v) => r is Some && r->0@ == v,
            None => r is None,
        },
{
    let text = chars_of(output);
    let ls = lines_chars(text.as_slice());
    let ghost lv = views(ls@);
    let mut i: usize = 0;
    assert(lv.subrange(0, lv.len() as int) == lv);
    while i < ls.len()
        invariant
            i <= ls@.len(),
            lv == views(ls@),
            lv == lines(output@),
            first_session(lv, accept_id_label) == first_session(
                lv.subrange(i as int, lv.len() as int),
                accept_id_label,
            ),
        decreases ls@.len() - i,
    {
        let ghost rest = lv.subrange(i as int, lv.len() as int);
        assert(rest[0] == ls@[i as int]@);
        assert(rest.drop_first() == lv.subrange(i + 1, lv.len() as int));
        match line_session_of(ls[i].as_slice(), accept_id_label) {
            Some(v) => {
                return Some(string_of(v.as_slice()));
            },
            None => {},
        }
        i = i + 1;
    }
    assert(lv.subrange(i as int, lv.len() as int).len() == 0);
    None
}

/// Parses the session id from CLI output: the first line that, trimmed,
/// starts with `Session ID:`, `Session:` or `session:` and has a non-empty
/// value after the first colon.
pub fn parse_session_id(output: &str) -> (r: Option<String>)
    ensures
        match first_session(lines(output@), true) {
            Some(v) => r is Some && r->0@ == v,
            None => r is None,
        },
{
    find_session(output, true)
}

/// A session id that is found is trimmed and not empty.
pub proof fn law_found_session_is_trimmed(ls: Seq<Seq<char>>, accept_id_label: bool)
    ensures
        first_session(ls, accept_id_label) matches Some(v) ==> v.len() > 0 && trim(v) == v,
    decreases ls.len(),
{
    if ls.len() > 0 {
        let t = trim(ls[0]);
        crate::text::lemma_trim_idempotent(after_first(t, ':'));
        law_found_session_is_trimmed(ls.drop_first(), accept_id_label);
    }
}

/// Every line that the stricter reading (without the `Session ID:` label)
/// accepts is accepted, with the same id, by the full reading.
pub proof fn law_strict_reading_agrees(line: Seq<char>)
    ensures
        line_session(line, false) matches Some(v) ==> line_session(line, true) == Some(v),
{
}

} // verus!
