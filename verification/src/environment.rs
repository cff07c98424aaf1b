//! The `PATH` handed to child processes: the login shell's, the system
//! helper's and the current one, merged in that order without duplicates.
//!
//! Running the shell and the helper is done by the caller; this module reads
//! their output and merges the entries. Entries are separated by `:`.
use crate::text::{
    chars_eq, chars_of, has_prefix, lines, lines_chars, skip_chars, split_char, split_char_chars,
    starts_with, string_of, trim, trim_chars, views,
};
use vstd::prelude::*;

verus! {

/// The entries of a `PATH` value, in order, without empty ones.
pub open spec fn path_entries(raw: Option<Seq<char>>) -> Seq<Seq<char>> {
    match raw {
        Some(p) => split_char(p, ':').filter(|e: Seq<char>| e.len() > 0),
        None => seq![],
    }
}

/// The view of an optional text.
pub open spec fn opt_text(o: Option<String>) -> Option<Seq<char>> {
    match o {
        Some(s) => Some(s@),
        None => None,
    }
}

/// The views of a sequence of strings.
pub open spec fn texts(v: Seq<String>) -> Seq<Seq<char>> {
    v.map_values(|s: String| s@)
}

/// Splits a `PATH` value into its non-empty entries.
pub fn parse_path_entries(raw_path: Option<&str>) -> (r: Vec<String>)
    ensures
        texts(r@) == path_entries(match raw_path {
            Some(p) => Some(p@),
            None => None,
        }),
{
    let raw = match raw_path {
        Some(p) => p,
        None => {
            return Vec::new();
        },
    };
    proof {
        reveal(Seq::filter);
    }
    let text = chars_of(raw);
    let parts = split_char_chars(text.as_slice(), ':');
    let ghost pv = views(parts@);
    let mut r: Vec<String> = Vec::new();
    let mut i: usize = 0;
    while i < parts.len()
        invariant
            i <= parts@.len(),
            pv == views(parts@),
            pv == split_char(raw@, ':'),
            texts(r@) == pv.subrange(0, i as int).filter(|e: Seq<char>| e.len() > 0),
        decreases parts@.len() - i,
    {
        let ghost pre = pv.subrange(0, i + 1);
        assert(pre.drop_last() == pv.subrange(0, i as int));
        assert(pre.last() == parts@[i as int]@);
        proof {
            reveal(Seq::filter);
        }
        if parts[i].len() > 0 {
            let ghost before = r@;
            r.push(string_of(parts[i].as_slice()));
            assert(texts(r@) == texts(before).push(parts@[i as int]@));
        }
        i = i + 1;
    }
    assert(pv.subrange(0, parts@.len() as int) == pv);
    r
}

/// The entries in order, each kept at its first occurrence only.
pub open spec fn dedupe(s: Seq<Seq<char>>) -> Seq<Seq<char>>
    decreases s.len(),
{
    if s.len() == 0 {
        seq![]
    } else {
        let d = dedupe(s.drop_last());
        if d.contains(s.last()) {
            d
        } else {
            d.push(s.last())
        }
    }
}

/// The groups one after the other.
pub open spec fn concat(groups: Seq<Seq<Seq<char>>>) -> Seq<Seq<char>>
    decreases groups.len(),
{
    if groups.len() == 0 {
        seq![]
    } else {
        concat(groups.drop_last()) + groups.last()
    }
}

fn seq_contains(v: &Vec<String>, x: &String) -> (r: bool)
    ensures
        r == texts(v@).contains(x@),
{
    let xv = chars_of(x.as_str());
    let mut i: usize = 0;
    while i < v.len()
        invariant
            i <= v@.len(),
            xv@ == x@,
            forall|k: int| 0 <= k < i ==> v@[k]@ != x@,
        decreases v@.len() - i,
    {
        let e = chars_of(v[i].as_str());
        if chars_eq(e.as_slice(), xv.as_slice()) {
            assert(texts(v@)[i as int] == x@);
            return true;
        }
        i = i + 1;
    }
    assert forall|k: int| 0 <= k < texts(v@).len() implies texts(v@)[k] != x@ by {}
    false
}

/// Merges groups of `PATH` entries in order, keeping each entry at its
/// first occurrence.
pub fn merge_unique_paths(groups: Vec<Vec<String>>) -> (r: Vec<String>)
    ensures
        texts(r@) == dedupe(concat(groups@.map_values(|g: Vec<String>| texts(g@)))),
{
    let ghost gs = groups@.map_values(|g: Vec<String>| texts(g@));
    let mut merged: Vec<String> = Vec::new();
    let mut gi: usize = 0;
    while gi < groups.len()
        invariant
            gi <= groups@.len(),
            gs == groups@.map_values(|g: Vec<String>| texts(g@)),
            texts(merged@) == dedupe(concat(gs.subrange(0, gi as int))),
        decreases groups@.len() - gi,
    {
        let group = &groups[gi];
        let ghost done = concat(gs.subrange(0, gi as int));
        let mut k: usize = 0;
        while k < group.len()
            invariant
                gi < groups@.len(),
                k <= group@.len(),
                group == groups@[gi as int],
                texts(merged@) == dedupe(done + texts(group@).subrange(0, k as int)),
            decreases group@.len() - k,
        {
            let ghost pre = done + texts(group@).subrange(0, k + 1);
            assert(pre.drop_last() == done + texts(group@).subrange(0, k as int));
            assert(pre.last() == group@[k as int]@);
            if !seq_contains(&merged, &group[k]) {
                let ghost before = merged@;
                merged.push(group[k].clone());
                assert(texts(merged@) == texts(before).push(group@[k as int]@));
            }
            k = k + 1;
        }
        let ghost next = gs.subrange(0, gi + 1);
        assert(next.drop_last() == gs.subrange(0, gi as int));
        assert(next.last() == texts(group@));
        assert(texts(group@).subrange(0, group@.len() as int) == texts(group@));
        gi = gi + 1;
    }
    assert(gs.subrange(0, groups@.len() as int) == gs);
    merged
}

/// No entry occurs twice in a merged `PATH`, and every entry of the groups
/// is in it.
pub proof fn law_dedupe_is_unique_and_complete(s: Seq<Seq<char>>)
    ensures
        dedupe(s).no_duplicates(),
        forall|x: Seq<char>| s.contains(x) <==> dedupe(s).contains(x),
    decreases s.len(),
{
    if s.len() > 0 {
        law_dedupe_is_unique_and_complete(s.drop_last());
        let d = dedupe(s.drop_last());
        assert forall|x: Seq<char>| s.contains(x) <==> dedupe(s).contains(x) by {
            if s.contains(x) {
                let k = choose|k: int| 0 <= k < s.len() && s[k] == x;
                if k < s.len() - 1 {
                    assert(s.drop_last()[k] == x);
                }
            }
            if s.drop_last().contains(x) {
                let k = choose|k: int| 0 <= k < s.drop_last().len() && s.drop_last()[k] == x;
                assert(s[k] == x);
            }
            if !d.contains(s.last()) && dedupe(s).contains(x) {
                let k = choose|k: int| 0 <= k < dedupe(s).len() && dedupe(s)[k] == x;
                if k < d.len() {
                    assert(d[k] == x);
                }
            }
            if d.contains(x) && !d.contains(s.last()) {
                let k = choose|k: int| 0 <= k < d.len() && d[k] == x;
                assert(d.push(s.last())[k] == x);
            }
            if x == s.last() {
                assert(s[s.len() - 1] == x);
                if !d.contains(s.last()) {
                    assert(d.push(s.last())[d.len() as int] == x);
                }
            }
        }
    }
}

/// The hydrated `PATH`: the entries of the login shell, of the helper and of
/// the current `PATH`, merged; `None` when there is none.
pub open spec fn hydrated_path_spec(
    current: Option<Seq<char>>,
    login_shell: Option<Seq<char>>,
    path_helper: Option<Seq<char>>,
) -> Option<Seq<char>> {
    let merged = dedupe(
        concat(seq![path_entries(login_shell), path_entries(path_helper), path_entries(current)]),
    );
    if merged.len() == 0 {
        None
    } else {
        Some(crate::text::joined(merged, ":"@))
    }
}

/// Builds the hydrated `PATH` from the current `PATH` and the ones the login
/// shell and the helper reported.
pub fn build_hydrated_path(
    current_path: Option<&str>,
    login_shell: Option<&str>,
    path_helper: Option<&str>,
) -> (r: Option<String>)
    ensures
        opt_text(r) == hydrated_path_spec(
            match current_path {
                Some(p) => Some(p@),
                None => None,
            },
            match login_shell {
                Some(p) => Some(p@),
                None => None,
            },
            match path_helper {
                Some(p) => Some(p@),
                None => None,
            },
        ),
{
    let login_entries = parse_path_entries(login_shell);
    let helper_entries = parse_path_entries(path_helper);
    let current_entries = parse_path_entries(current_path);
    let ghost g = seq![texts(login_entries@), texts(helper_entries@), texts(current_entries@)];
    let mut groups: Vec<Vec<String>> = Vec::new();
    groups.push(login_entries);
    groups.push(helper_entries);
    groups.push(current_entries);
    assert(groups@.map_values(|v: Vec<String>| texts(v@)) == g);
    let merged = merge_unique_paths(groups);
    if merged.len() == 0 {
        return None;
    }
    Some(crate::text::join_strings(&merged, ":"))
}

/// The value of the last line of `output` that starts with `prefix` and
/// whose rest, trimmed, is not empty; that rest, trimmed.
pub open spec fn last_prefixed(ls: Seq<Seq<char>>, prefix: Seq<char>) -> Option<Seq<char>>
    decreases ls.len(),
{
    if ls.len() == 0 {
        None
    } else {
        let l = ls.last();
        let v = trim(l.subrange(prefix.len() as int, l.len() as int));
        if has_prefix(l, prefix) && v.len() > 0 {
            Some(v)
        } else {
            last_prefixed(ls.drop_last(), prefix)
        }
    }
}

/// Reads the `PATH` a login shell printed after `prefix`: the last such
/// line wins.
pub fn parse_prefixed_path_output(output: &str, prefix: &str) -> (r: Option<String>)
    ensures
        opt_text(r) == last_prefixed(lines(output@), prefix@),
{
    let text = chars_of(output);
    let p = chars_of(prefix);
    let ls = lines_chars(text.as_slice());
    let ghost lv = views(ls@);
    let mut i: usize = ls.len();
    assert(lv.subrange(0, lv.len() as int) == lv);
    while i > 0
        invariant
            i <= ls@.len(),
            lv == views(ls@),
            lv == lines(output@),
            p@ == prefix@,
            last_prefixed(lv, prefix@) == last_prefixed(lv.subrange(0, i as int), prefix@),
        decreases i,
    {
        let ghost pre = lv.subrange(0, i as int);
        assert(pre.drop_last() == lv.subrange(0, i - 1));
        assert(pre.last() == ls@[i - 1]@);
        let line = &ls[i - 1];
        if starts_with(line.as_slice(), p.as_slice()) {
            let rest = skip_chars(line.as_slice(), p.len());
            let v = trim_chars(rest.as_slice());
            if v.len() > 0 {
                return Some(string_of(v.as_slice()));
            }
        }
        i = i - 1;
    }
    None
}

/// What precedes the first `";` of `s`, if it has one.
pub open spec fn before_quote_semi(s: Seq<char>) -> Option<Seq<char>>
    decreases s.len(),
{
    if s.len() < 2 {
        None
    } else if s[0] == '"' && s[1] == ';' {
        Some(seq![])
    } else {
        match before_quote_semi(s.drop_first()) {
            Some(v) => Some(seq![s[0]] + v),
            None => None,
        }
    }
}

fn before_quote_semi_chars(s: &[char]) -> (r: Option<Vec<char>>)
    ensures
        match before_quote_semi(s@) {
            Some(v) => r is Some && r->0@ == v,
            None => r is None,
        },
{
    let mut i: usize = 0;
    assert(s@.subrange(0, s@.len() as int) == s@);
    assert forall|v: Seq<char>| s@.subrange(0, 0) + v == v by {
        assert(s@.subrange(0, 0) + v =~= v);
    }
    while i < s.len() && s.len() - i > 1
        invariant
            i <= s@.len(),
            before_quote_semi(s@) == match before_quote_semi(s@.subrange(i as int, s@.len() as int)) {
                Some(v) => Some(s@.subrange(0, i as int) + v),
                None => None,
            },
        decreases s@.len() - i,
    {
        let ghost rest = s@.subrange(i as int, s@.len() as int);
        assert(rest[0] == s@[i as int] && rest[1] == s@[i + 1]);
        if s[i] == '"' && s[i + 1] == ';' {
            let mut r: Vec<char> = Vec::new();
            let mut j: usize = 0;
            while j < i
                invariant
                    j <= i,
                    i < s@.len(),
                    r@ == s@.subrange(0, j as int),
                decreases i - j,
            {
                r.push(s[j]);
                assert(r@ == s@.subrange(0, j + 1));
                j = j + 1;
            }
            assert(s@.subrange(0, i as int) + seq![] == s@.subrange(0, i as int));
            return Some(r);
        }
        assert(rest.drop_first() == s@.subrange(i + 1, s@.len() as int));
        assert(s@.subrange(0, i as int) + seq![s@[i as int]] == s@.subrange(0, i + 1));
        proof {
            match before_quote_semi(rest.drop_first()) {
                Some(v) => {
                    assert(s@.subrange(0, i as int) + (seq![s@[i as int]] + v) == s@.subrange(0, i + 1) + v);
                },
                None => {},
            }
        }
        i = i + 1;
    }
    assert(s@.subrange(i as int, s@.len() as int).len() < 2);
    None
}

/// The `PATH` of a `path_helper -s` line: the line starts with `PATH="`,
/// and what precedes the first `";` after it is not empty.
pub open spec fn helper_line(line: Seq<char>) -> Option<Seq<char>> {
    let label = "PATH=\""@;
    if has_prefix(line, label) {
        match before_quote_semi(line.subrange(label.len() as int, line.len() as int)) {
            Some(v) => if v.len() > 0 {
                Some(v)
            } else {
                None
            },
            None => None,
        }
    } else {
        None
    }
}

/// The `PATH` of the first line that gives one.
pub open spec fn first_helper_path(ls: Seq<Seq<char>>) -> Option<Seq<char>>
    decreases ls.len(),
{
    if ls.len() == 0 {
        None
    } else {
        match helper_line(ls[0]) {
            Some(v) => Some(v),
            None => first_helper_path(ls.drop_first()),
        }
    }
}

/// Reads the `PATH` from the output of `path_helper -s`.
pub fn parse_path_helper_output(output: &str) -> (r: Option<String>)
    ensures
        opt_text(r) == first_helper_path(lines(output@)),
{
    let text = chars_of(output);
    let label = chars_of("PATH=\"");
    let ls = lines_chars(text.as_slice());
    let ghost lv = views(ls@);
    let mut i: usize = 0;
    assert(lv.subrange(0, lv.len() as int) == lv);
    while i < ls.len()
        invariant
            i <= ls@.len(),
            lv == views(ls@),
            lv == lines(output@),
            label@ == "PATH=\""@,
            first_helper_path(lv) == first_helper_path(lv.subrange(i as int, lv.len() as int)),
        decreases ls@.len() - i,
    {
        let ghost rest = lv.subrange(i as int, lv.len() as int);
        assert(rest[0] == ls@[i as int]@);
        assert(rest.drop_first() == lv.subrange(i + 1, lv.len() as int));
        let line = &ls[i];
        if starts_with(line.as_slice(), label.as_slice()) {
            let after = skip_chars(line.as_slice(), label.len());
            match before_quote_semi_chars(after.as_slice()) {
                Some(v) => {
                    if v.len() > 0 {
                        return Some(string_of(v.as_slice()));
                    }
                },
                None => {},
            }
        }
        i = i + 1;
    }
    assert(lv.subrange(i as int, lv.len() as int).len() == 0);
    None
}

/// The working directory of a run: the task's own directory when it names
/// an existing directory, else the default one.
pub fn choose_working_directory(
    working_directory: Option<String>,
    is_existing_dir: bool,
    default_dir: String,
) -> (r: String)
    ensures
        r == match working_directory {
            Some(d) => if is_existing_dir {
                d
            } else {
                default_dir
            },
            None => default_dir,
        },
{
    match working_directory {
        Some(d) => if is_existing_dir {
            d
        } else {
            default_dir
        },
        None => default_dir,
    }
}

} // verus!
